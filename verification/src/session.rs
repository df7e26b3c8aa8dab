//! The control plane of one SSH session: the tunnels it owns, the row that
//! is selected in its table, the name that is being typed, and what each
//! event of the session does to them and to the registry.
use vstd::prelude::*;
use vstd::string::*;
use crate::input::Input;
use crate::names::{in_pool, lemma_pool_has_kitten};
use crate::registry::{lemma_candidate_unused, one_tunnel_at_a_time, Registry, RegistryView};
use crate::text::{alphanumeric, ascii_lowercase, is_alphanumeric, pop_char, push_char, to_ascii_lowercase};
use crate::tunnel::{optional_text, Access, Tunnel, TunnelAccess};

verus! {

/// What the session has to do after an event.
#[derive(Clone, Copy, Debug, PartialEq, Eq, Structural)]
pub enum Reaction {
    /// Nothing: the table is as it was.
    Ignore,
    /// Draw the table again.
    Redraw,
    /// Close the terminal interface.
    Close,
}

/// Why a session is ended.
#[derive(Clone, Copy, Debug, PartialEq, Eq, Structural)]
pub enum SessionError {
    /// A forward was requested before a user was authenticated.
    Inconsistent,
    /// The registry cannot number another tunnel.
    Exhausted,
}

/// The session as a mathematical value. The tunnels are given by their
/// numbers, in the order of the table.
pub ghost struct HandlerView {
    pub tunnels: Seq<u64>,
    pub user: Option<Seq<char>>,
    pub pty_channel: Option<u32>,
    pub selected: Option<usize>,
    pub rename_buffer: Option<Seq<char>>,
}

/// The registry after the access of each of the tunnels `ids` was set, one
/// after the other.
pub open spec fn access_all(v: RegistryView, ids: Seq<u64>, access: Access) -> RegistryView
    decreases ids.len(),
{
    if ids.len() == 0 {
        v
    } else {
        access_all(v, ids.drop_last(), access).with_access(ids.last(), access)
    }
}

/// The registry after each of the tunnels `ids` was dropped, one after the
/// other.
pub open spec fn released_all(v: RegistryView, ids: Seq<u64>) -> RegistryView
    decreases ids.len(),
{
    if ids.len() == 0 {
        v
    } else {
        released_all(v, ids.drop_last()).released(ids.last())
    }
}

impl HandlerView {
    /// Whether a row is selected that the table has.
    pub open spec fn selection_valid(self) -> bool {
        self.selected.is_some() && self.selected.unwrap() < self.tunnels.len()
    }

    /// The selection after a step down: the first row if none was selected,
    /// the next one if there is one. An empty table changes nothing.
    pub open spec fn next_row(self) -> Option<usize> {
        if self.tunnels.len() == 0 {
            self.selected
        } else {
            match self.selected {
                Some(i) => if i < self.tunnels.len() - 1 {
                    Some((i + 1) as usize)
                } else {
                    Some(i)
                },
                None => Some(0),
            }
        }
    }

    /// The selection after a step up: the last row if none was selected,
    /// the one before if there is one. An empty table changes nothing.
    pub open spec fn previous_row(self) -> Option<usize> {
        if self.tunnels.len() == 0 {
            self.selected
        } else {
            match self.selected {
                Some(i) => if i > 0 {
                    Some((i - 1) as usize)
                } else {
                    Some(i)
                },
                None => Some((self.tunnels.len() - 1) as usize),
            }
        }
    }

    /// The registry after an access was set on the selected tunnel, or on
    /// all tunnels of the session if none is selected. A selection that the
    /// table does not have changes nothing.
    pub open spec fn access_selection(self, v: RegistryView, access: Access) -> RegistryView {
        match self.selected {
            Some(i) => if i < self.tunnels.len() {
                v.with_access(self.tunnels[i as int], access)
            } else {
                v
            },
            None => access_all(v, self.tunnels, access),
        }
    }

    /// The session after a key press.
    pub open spec fn after_input(self, input: Input) -> HandlerView {
        match self.rename_buffer {
            Some(buffer) => match input {
                Input::Char(c) => if is_alphanumeric(c) {
                    HandlerView { rename_buffer: Some(buffer.push(ascii_lowercase(c))), ..self }
                } else {
                    self
                },
                Input::Backspace => HandlerView {
                    rename_buffer: Some(
                        if buffer.len() > 0 {
                            buffer.drop_last()
                        } else {
                            buffer
                        },
                    ),
                    ..self
                },
                Input::Enter => if self.selection_valid() {
                    HandlerView { rename_buffer: None, ..self }
                } else {
                    self
                },
                Input::Esc => HandlerView { rename_buffer: None, ..self },
                _ => self,
            },
            None => match input {
                Input::Char(c) => if c == 'k' {
                    HandlerView { selected: self.previous_row(), ..self }
                } else if c == 'j' {
                    HandlerView { selected: self.next_row(), ..self }
                } else if c == 'r' && self.selected.is_some() {
                    HandlerView { rename_buffer: Some(Seq::empty()), ..self }
                } else {
                    self
                },
                Input::Up => HandlerView { selected: self.previous_row(), ..self },
                Input::Down => HandlerView { selected: self.next_row(), ..self },
                Input::Esc => HandlerView { selected: None, ..self },
                Input::Delete => if self.selection_valid() {
                    let i = self.selected.unwrap();
                    let tunnels = self.tunnels.remove(i as int);
                    HandlerView {
                        tunnels,
                        selected: if tunnels.len() == 0 {
                            None
                        } else if i < tunnels.len() - 1 {
                            Some(i)
                        } else {
                            Some((tunnels.len() - 1) as usize)
                        },
                        ..self
                    }
                } else {
                    self
                },
                _ => self,
            },
        }
    }

    /// What the session has to do after a key press.
    pub open spec fn reaction(self, input: Input) -> Reaction {
        match self.rename_buffer {
            Some(_) => match input {
                Input::Char(c) => if is_alphanumeric(c) {
                    Reaction::Redraw
                } else {
                    Reaction::Ignore
                },
                Input::Backspace | Input::Enter | Input::Esc => Reaction::Redraw,
                _ => Reaction::Ignore,
            },
            None => match input {
                Input::Char(c) => if c == 'q' {
                    Reaction::Close
                } else if c == 'k' || c == 'j' || c == 'P' || c == 'p' || c == 'r' {
                    Reaction::Redraw
                } else if c == 'R' && self.selection_valid() {
                    Reaction::Redraw
                } else {
                    Reaction::Ignore
                },
                Input::Up | Input::Down | Input::Esc | Input::CtrlP => Reaction::Redraw,
                Input::Delete => if self.selection_valid() {
                    Reaction::Redraw
                } else {
                    Reaction::Ignore
                },
                _ => Reaction::Ignore,
            },
        }
    }

    /// Whether a key press may need a name from the pool: one that commits
    /// a rename or retries a tunnel.
    pub open spec fn draws_name(self, input: Input) -> bool {
        match self.rename_buffer {
            Some(_) => input == Input::Enter,
            None => input == Input::Char('R'),
        }
    }

    /// The registry after a key press, with `candidate` as the name to use
    /// where the pool has to supply one.
    pub open spec fn registry_after_input(
        self,
        v: RegistryView,
        input: Input,
        candidate: Seq<char>,
    ) -> RegistryView {
        match self.rename_buffer {
            Some(buffer) => match input {
                Input::Enter => if self.selection_valid() {
                    v.renamed(self.tunnels[self.selected.unwrap() as int], buffer, candidate)
                } else {
                    v
                },
                _ => v,
            },
            None => match input {
                Input::Char(c) => if c == 'P' {
                    self.access_selection(v, Access::Public)
                } else if c == 'p' {
                    match self.user {
                        Some(user) => self.access_selection(v, Access::Private(user)),
                        None => v,
                    }
                } else if c == 'R' && self.selection_valid() {
                    v.registered(self.tunnels[self.selected.unwrap() as int], candidate)
                } else {
                    v
                },
                Input::CtrlP => self.access_selection(v, Access::Protected),
                Input::Delete => if self.selection_valid() {
                    v.released(self.tunnels[self.selected.unwrap() as int])
                } else {
                    v
                },
                _ => v,
            },
        }
    }
}

/// The state of one SSH session.
#[derive(Debug)]
pub struct Handler {
    tunnels: Vec<Tunnel>,
    user: Option<String>,
    pty_channel: Option<u32>,
    selected: Option<usize>,
    rename_buffer: Option<String>,
}

impl View for Handler {
    type V = HandlerView;

    closed spec fn view(&self) -> HandlerView {
        HandlerView {
            tunnels: self.tunnels@.map_values(|t: Tunnel| t.id()),
            user: optional_text(self.user),
            pty_channel: self.pty_channel,
            selected: self.selected,
            rename_buffer: optional_text(self.rename_buffer),
        }
    }
}

impl Handler {
    /// A session that has authenticated nobody and owns nothing.
    pub fn new() -> (r: Handler)
        ensures
            r@ == (HandlerView {
                tunnels: Seq::empty(),
                user: None,
                pty_channel: None,
                selected: None,
                rename_buffer: None,
            }),
    {
        let r = Handler {
            tunnels: Vec::new(),
            user: None,
            pty_channel: None,
            selected: None,
            rename_buffer: None,
        };
        assert(r@.tunnels =~= Seq::empty());
        r
    }

    pub fn selected(&self) -> (r: Option<usize>)
        ensures
            r == self@.selected,
    {
        self.selected
    }

    pub fn pty_channel(&self) -> (r: Option<u32>)
        ensures
            r == self@.pty_channel,
    {
        self.pty_channel
    }

    pub fn user(&self) -> (r: Option<&String>)
        ensures
            r.is_some() == self@.user.is_some(),
            r.is_some() ==> r.unwrap()@ == self@.user.unwrap(),
    {
        self.user.as_ref()
    }

    pub fn rename_buffer(&self) -> (r: Option<&String>)
        ensures
            r.is_some() == self@.rename_buffer.is_some(),
            r.is_some() ==> r.unwrap()@ == self@.rename_buffer.unwrap(),
    {
        self.rename_buffer.as_ref()
    }

    /// The tunnels of the session, in the order of the table.
    pub fn tunnels(&self) -> (r: &Vec<Tunnel>)
        ensures
            r@.len() == self@.tunnels.len(),
            forall|i: int| 0 <= i < r@.len() ==> r@[i].id() == self@.tunnels[i],
    {
        &self.tunnels
    }

    pub fn set_access_all(&self, registry: &mut Registry, access: TunnelAccess)
        requires
            old(registry).wf(),
        ensures
            final(registry).wf(),
            final(registry)@ == access_all(old(registry)@, self@.tunnels, access@),
    {
        let mut i: usize = 0;
        while i < self.tunnels.len()
            invariant
                i <= self.tunnels.len(),
                registry.wf(),
                registry@ == access_all(old(registry)@, self@.tunnels.take(i as int), access@),
            decreases self.tunnels.len() - i,
        {
            self.tunnels[i].set_access(registry, access.clone());
            proof {
                let ids = self@.tunnels;
                assert(ids.take(i + 1).drop_last() =~= ids.take(i as int));
                assert(ids.take(i + 1).last() == self.tunnels[i as int].id());
            }
            i += 1;
        }
        proof {
            assert(self@.tunnels.take(i as int) =~= self@.tunnels);
        }
    }

    pub fn set_access_selection(&self, registry: &mut Registry, access: TunnelAccess)
        requires
            old(registry).wf(),
        ensures
            final(registry).wf(),
            final(registry)@ == self@.access_selection(old(registry)@, access@),
    {
        match self.selected {
            Some(selected) => {
                if selected < self.tunnels.len() {
                    self.tunnels[selected].set_access(registry, access);
                }
            },
            None => {
                self.set_access_all(registry, access);
            },
        }
    }

    pub fn next_row(&mut self)
        ensures
            final(self)@ == (HandlerView { selected: old(self)@.next_row(), ..old(self)@ }),
    {
        if self.tunnels.len() == 0 {
            return ;
        }
        let i: usize = match self.selected {
            Some(i) => if i < self.tunnels.len() - 1 {
                i + 1
            } else {
                i
            },
            None => 0,
        };
        self.selected = Some(i);
    }

    pub fn previous_row(&mut self)
        ensures
            final(self)@ == (HandlerView { selected: old(self)@.previous_row(), ..old(self)@ }),
    {
        if self.tunnels.len() == 0 {
            return ;
        }
        let i: usize = match self.selected {
            Some(i) => if i > 0 {
                i - 1
            } else {
                i
            },
            None => self.tunnels.len() - 1,
        };
        self.selected = Some(i);
    }

    /// Handles a key press, with `candidate` as the name to use where the
    /// pool has to supply one.
    pub fn handle_input_as(&mut self, registry: &mut Registry, input: Input, candidate: &str) -> (r:
        Reaction)
        requires
            old(registry).wf(),
        ensures
            final(registry).wf(),
            r == old(self)@.reaction(input),
            final(self)@ == old(self)@.after_input(input),
            final(registry)@ == old(self)@.registry_after_input(
                old(registry)@,
                input,
                candidate@,
            ),
    {
        if self.rename_buffer.is_some() {
            match input {
                Input::Char(c) => {
                    if !alphanumeric(c) {
                        return Reaction::Ignore;
                    }
                    let mut buffer = self.rename_buffer.take().unwrap();
                    push_char(&mut buffer, to_ascii_lowercase(c));
                    self.rename_buffer = Some(buffer);
                },
                Input::Backspace => {
                    let mut buffer = self.rename_buffer.take().unwrap();
                    let _ = pop_char(&mut buffer);
                    self.rename_buffer = Some(buffer);
                },
                Input::Enter => {
                    if let Some(selected) = self.selected {
                        if selected < self.tunnels.len() {
                            let buffer = self.rename_buffer.take().unwrap();
                            registry.rename_as(
                                self.tunnels[selected].number(),
                                buffer.as_str(),
                                candidate,
                            );
                        }
                    }
                },
                Input::Esc => {
                    self.rename_buffer = None;
                },
                _ => {
                    return Reaction::Ignore;
                },
            }
            Reaction::Redraw
        } else {
            match input {
                Input::Char(c) => {
                    if c == 'q' {
                        return Reaction::Close;
                    } else if c == 'k' {
                        self.previous_row();
                    } else if c == 'j' {
                        self.next_row();
                    } else if c == 'P' {
                        self.set_access_selection(registry, TunnelAccess::Public);
                    } else if c == 'p' {
                        if let Some(user) = &self.user {
                            let access = TunnelAccess::Private(user.clone());
                            self.set_access_selection(registry, access);
                        }
                    } else if c == 'R' {
                        let Some(selected) = self.selected else {
                            return Reaction::Ignore;
                        };
                        if selected >= self.tunnels.len() {
                            return Reaction::Ignore;
                        }
                        registry.register_as(self.tunnels[selected].number(), candidate);
                    } else if c == 'r' {
                        if self.selected.is_some() {
                            self.rename_buffer = Some(String::new());
                        }
                    } else {
                        return Reaction::Ignore;
                    }
                },
                Input::Up => {
                    self.previous_row();
                },
                Input::Down => {
                    self.next_row();
                },
                Input::Esc => {
                    self.selected = None;
                },
                Input::Delete => {
                    let Some(selected) = self.selected else {
                        return Reaction::Ignore;
                    };
                    if selected >= self.tunnels.len() {
                        return Reaction::Ignore;
                    }
                    let tunnel = self.tunnels.remove(selected);
                    tunnel.close(registry);
                    if self.tunnels.len() == 0 {
                        self.selected = None;
                    } else if selected < self.tunnels.len() - 1 {
                        self.selected = Some(selected);
                    } else {
                        self.selected = Some(self.tunnels.len() - 1);
                    }
                    proof {
                        assert(self@.tunnels =~= old(self)@.tunnels.remove(selected as int));
                    }
                },
                Input::CtrlP => {
                    self.set_access_selection(registry, TunnelAccess::Protected);
                },
                _ => {
                    return Reaction::Ignore;
                },
            }
            Reaction::Redraw
        }
    }

    /// Handles a key press. A name is drawn from the pool only for a key
    /// press that may need one.
    pub fn handle_input(&mut self, registry: &mut Registry, input: Input) -> (r: Reaction)
        requires
            old(registry).wf(),
        ensures
            final(registry).wf(),
            r == old(self)@.reaction(input),
            final(self)@ == old(self)@.after_input(input),
            exists|candidate: Seq<char>|
                in_pool(candidate) && final(registry)@ == #[trigger] old(
                    self,
                )@.registry_after_input(old(registry)@, input, candidate),
    {
        let candidate = match self.selected {
            Some(selected) => if selected < self.tunnels.len() {
                let id = self.tunnels[selected].number();
                match &self.rename_buffer {
                    Some(buffer) => match input {
                        Input::Enter => registry.candidate(id, Some(buffer.as_str())),
                        _ => String::new(),
                    },
                    None => match input {
                        Input::Char(c) => if c == 'R' {
                            registry.candidate(id, None)
                        } else {
                            String::new()
                        },
                        _ => String::new(),
                    },
                }
            } else {
                String::new()
            },
            None => String::new(),
        };
        let reaction = self.handle_input_as(registry, input, candidate.as_str());
        proof {
            let h = old(self)@;
            let v = old(registry)@;
            if !in_pool(candidate@) {
                lemma_pool_has_kitten();
                if h.selection_valid() {
                    let id = h.tunnels[h.selected.unwrap() as int];
                    if h.rename_buffer.is_none() && input == Input::Char('R') {
                        lemma_candidate_unused(v, id, None, candidate@, "kitten"@);
                    }
                    if h.rename_buffer.is_some() && input == Input::Enter {
                        lemma_candidate_unused(
                            v,
                            id,
                            Some(h.rename_buffer.unwrap()),
                            candidate@,
                            "kitten"@,
                        );
                    }
                }
                assert(final(registry)@ == h.registry_after_input(v, input, "kitten"@));
            }
        }
        reaction
    }

    /// Handles bytes that arrive on `channel`: they are a key press if that
    /// is the channel of the terminal, and nothing to the session otherwise.
    pub fn data(&mut self, registry: &mut Registry, channel: u32, bytes: &[u8]) -> (r: Reaction)
        requires
            old(registry).wf(),
        ensures
            final(registry).wf(),
            old(self)@.pty_channel != Some(channel) ==> r == Reaction::Ignore && final(self)@ == old(
                self,
            )@ && final(registry)@ == old(registry)@,
            old(self)@.pty_channel == Some(channel) ==> r == old(self)@.reaction(
                Input::decoded(bytes@),
            ) && final(self)@ == old(self)@.after_input(Input::decoded(bytes@)) && exists|
                candidate: Seq<char>,
            |
                in_pool(candidate) && final(registry)@ == #[trigger] old(
                    self,
                )@.registry_after_input(old(registry)@, Input::decoded(bytes@), candidate),
    {
        match self.pty_channel {
            Some(pty_channel) => {
                if pty_channel == channel {
                    let input = Input::decode(bytes);
                    self.handle_input(registry, input)
                } else {
                    Reaction::Ignore
                }
            },
            None => Reaction::Ignore,
        }
    }

    /// A request for a session channel is always granted.
    pub fn channel_open_session(&self) -> (r: bool)
        ensures
            r,
    {
        true
    }

    /// Records the user who is trying to authenticate.
    pub fn set_user(&mut self, user: &str)
        ensures
            final(self)@ == (HandlerView { user: Some(user@), ..old(self)@ }),
    {
        self.user = Some(String::from_str(user));
    }

    /// Records the user and decides on the key that was presented: it is
    /// accepted exactly if it is one of the user's keys.
    pub fn auth_publickey(&mut self, user: &str, keys: &Vec<Vec<u8>>, presented: &Vec<u8>) -> (r:
        bool)
        ensures
            final(self)@ == (HandlerView { user: Some(user@), ..old(self)@ }),
            r == key_is_listed(keys.deep_view(), presented@),
    {
        self.set_user(user);
        let mut i: usize = 0;
        while i < keys.len()
            invariant
                i <= keys.len(),
                self@ == (HandlerView { user: Some(user@), ..old(self)@ }),
                forall|j: int| 0 <= j < i ==> keys.deep_view()[j] != presented@,
            decreases keys.len() - i,
        {
            if same_bytes(&keys[i], presented) {
                proof {
                    assert(keys.deep_view()[i as int] == keys[i as int]@);
                }
                return true;
            }
            proof {
                assert(keys.deep_view()[i as int] == keys[i as int]@);
            }
            i += 1;
        }
        false
    }

    /// Records the channel on which the terminal runs.
    pub fn pty_request(&mut self, channel: u32)
        ensures
            final(self)@ == (HandlerView { pty_channel: Some(channel), ..old(self)@ }),
    {
        self.pty_channel = Some(channel);
    }

    /// Carries out a command line that was parsed into `args`; `None`
    /// stands for a command line that could not be parsed, with `usage` as
    /// the text that says why.
    pub fn exec_request(&self, registry: &mut Registry, args: Option<Args>, usage: &str) -> (r:
        ExecReply)
        requires
            old(registry).wf(),
        ensures
            final(registry).wf(),
            final(registry)@ == exec_registry(self@, old(registry)@, args),
            r@ == exec_reply(args, usage@),
    {
        match args {
            Some(args) => {
                if args.make_public() {
                    self.set_access_all(registry, TunnelAccess::Public);
                    ExecReply { redraw: true, help: None }
                } else if args.make_protected() {
                    self.set_access_all(registry, TunnelAccess::Protected);
                    ExecReply { redraw: true, help: None }
                } else {
                    ExecReply { redraw: false, help: None }
                }
            },
            None => ExecReply { redraw: false, help: Some(terminal_text(usage)) },
        }
    }

    /// Creates a tunnel for a forward that the developer requested. The
    /// tunnel is private to the authenticated user. The request is granted
    /// whether or not the tunnel could be attached, so that the developer's
    /// client stays connected and the tunnel can be retried.
    pub fn tcpip_forward(&mut self, registry: &mut Registry, handle: u64, address: &str, port: u32) -> (r:
        Result<bool, SessionError>)
        requires
            old(registry).wf(),
        ensures
            final(registry).wf(),
            old(self)@.user.is_none() ==> r == Err::<bool, SessionError>(
                SessionError::Inconsistent,
            ),
            old(self)@.user.is_some() && old(registry)@.next_id == u64::MAX ==> r == Err::<
                bool,
                SessionError,
            >(SessionError::Exhausted),
            r.is_err() ==> final(self)@ == old(self)@ && final(registry)@ == old(registry)@,
            old(self)@.user.is_some() && old(registry)@.next_id < u64::MAX ==> r == Ok::<
                bool,
                SessionError,
            >(true) && final(self)@ == (HandlerView {
                tunnels: old(self)@.tunnels.push(old(registry)@.next_id),
                ..old(self)@
            }) && exists|candidate: Seq<char>|
                in_pool(candidate) && final(registry)@ == #[trigger] old(registry)@.inserted(
                    handle,
                    address@,
                    port,
                    Access::Private(old(self)@.user.unwrap()),
                ).registered(old(registry)@.next_id, candidate),
    {
        let user = match &self.user {
            Some(user) => user.clone(),
            None => {
                return Err(SessionError::Inconsistent);
            },
        };
        if !registry.has_room() {
            return Err(SessionError::Exhausted);
        }
        let tunnel = Tunnel::create(registry, handle, address, port, TunnelAccess::Private(user));
        proof {
            let before = old(registry)@.inserted(
                handle,
                address@,
                port,
                Access::Private(old(self)@.user.unwrap()),
            );
            let drawn = choose|candidate: Seq<char>|
                in_pool(candidate) && registry@ == #[trigger] before.registered(
                    tunnel.id(),
                    candidate,
                );
            assert(registry@ == before.registered(old(registry)@.next_id, drawn));
        }
        self.tunnels.push(tunnel);
        proof {
            assert(self@.tunnels =~= old(self)@.tunnels.push(old(registry)@.next_id));
        }
        Ok(true)
    }

    /// Ends the session: every tunnel it owns is dropped.
    pub fn drop_tunnels(self, registry: &mut Registry)
        requires
            old(registry).wf(),
        ensures
            final(registry).wf(),
            final(registry)@ == released_all(old(registry)@, self@.tunnels),
    {
        let mut i: usize = 0;
        while i < self.tunnels.len()
            invariant
                i <= self.tunnels.len(),
                registry.wf(),
                registry@ == released_all(old(registry)@, self@.tunnels.take(i as int)),
            decreases self.tunnels.len() - i,
        {
            registry.release(self.tunnels[i].number());
            proof {
                let ids = self@.tunnels;
                assert(ids.take(i + 1).drop_last() =~= ids.take(i as int));
                assert(ids.take(i + 1).last() == self.tunnels[i as int].id());
            }
            i += 1;
        }
        proof {
            assert(self@.tunnels.take(i as int) =~= self@.tunnels);
        }
    }
}

/// Whether `presented` is one of `keys`.
pub open spec fn key_is_listed(keys: Seq<Seq<u8>>, presented: Seq<u8>) -> bool {
    exists|i: int| 0 <= i < keys.len() && keys[i] == presented
}

/// Whether two byte strings are equal.
pub fn same_bytes(a: &Vec<u8>, b: &Vec<u8>) -> (r: bool)
    ensures
        r == (a@ == b@),
{
    if a.len() != b.len() {
        return false;
    }
    let mut i: usize = 0;
    while i < a.len()
        invariant
            i <= a.len(),
            a.len() == b.len(),
            forall|j: int| 0 <= j < i ==> a@[j] == b@[j],
        decreases a.len() - i,
    {
        if a[i] != b[i] {
            return false;
        }
        i += 1;
    }
    assert(a@ =~= b@);
    true
}

/// The flags of a command line that a developer runs on the session.
#[derive(Clone, Copy, Debug, PartialEq, Eq, Structural)]
pub struct Args {
    /// Make all tunnels public.
    pub public: bool,
    /// Make all tunnels protected.
    pub protected: bool,
}

impl Args {
    pub fn make_public(&self) -> (r: bool)
        ensures
            r == self.public,
    {
        self.public
    }

    pub fn make_protected(&self) -> (r: bool)
        ensures
            r == self.protected,
    {
        self.protected
    }
}

/// What the session has to do after a command line.
#[derive(Debug)]
pub struct ExecReply {
    /// Draw the table again.
    pub redraw: bool,
    /// Write this text to the terminal and close it.
    pub help: Option<String>,
}

/// `ExecReply` as a mathematical value.
pub ghost struct ExecReplyView {
    pub redraw: bool,
    pub help: Option<Seq<char>>,
}

impl View for ExecReply {
    type V = ExecReplyView;

    open spec fn view(&self) -> ExecReplyView {
        ExecReplyView { redraw: self.redraw, help: optional_text(self.help) }
    }
}

/// The registry after a command line: `--public` makes every tunnel of the
/// session public, `--protected` makes every one protected, anything else
/// changes nothing.
pub open spec fn exec_registry(h: HandlerView, v: RegistryView, args: Option<Args>) -> RegistryView {
    match args {
        Some(args) => if args.public {
            access_all(v, h.tunnels, Access::Public)
        } else if args.protected {
            access_all(v, h.tunnels, Access::Protected)
        } else {
            v
        },
        None => v,
    }
}

/// What the session has to do after a command line: draw again if the
/// access changed; show the usage, fit for a terminal, if the command line
/// could not be parsed.
pub open spec fn exec_reply(args: Option<Args>, usage: Seq<char>) -> ExecReplyView {
    match args {
        Some(args) => ExecReplyView { redraw: args.public || args.protected, help: None },
        None => ExecReplyView { redraw: false, help: Some(with_carriage_returns(usage)) },
    }
}

/// A text with a carriage return after each line feed.
pub open spec fn with_carriage_returns(text: Seq<char>) -> Seq<char>
    decreases text.len(),
{
    if text.len() == 0 {
        text
    } else if text.last() == '\n' {
        with_carriage_returns(text.drop_last()).push('\n').push('\r')
    } else {
        with_carriage_returns(text.drop_last()).push(text.last())
    }
}

/// `text` with a carriage return after each line feed, as a terminal in raw
/// mode needs it.
pub fn terminal_text(text: &str) -> (r: String)
    ensures
        r@ == with_carriage_returns(text@),
{
    let n = text.unicode_len();
    let mut r = String::new();
    let mut i: usize = 0;
    while i < n
        invariant
            i <= n,
            n == text@.len(),
            r@ == with_carriage_returns(text@.take(i as int)),
        decreases n - i,
    {
        let c = text.get_char(i);
        push_char(&mut r, c);
        if c == '\n' {
            push_char(&mut r, '\r');
        }
        proof {
            assert(text@.take(i + 1).drop_last() =~= text@.take(i as int));
            assert(text@.take(i + 1).last() == c);
        }
        i += 1;
    }
    proof {
        assert(text@.take(i as int) =~= text@);
    }
    r
}

/// How the SSH server treats its connections.
#[derive(Clone, Copy, Debug, PartialEq, Eq, Structural)]
pub struct ServerSettings {
    /// Seconds without traffic after which a connection is closed.
    pub inactivity_timeout: u64,
    /// Seconds that a rejected authentication attempt is held back.
    pub auth_rejection_time: u64,
    /// The same for the first attempt of a connection.
    pub auth_rejection_time_initial: u64,
    /// Whether data is sent without waiting for more.
    pub nodelay: bool,
    /// Whether a public key is the only way to authenticate.
    pub public_key_only: bool,
    /// Seconds that the server is driven on after shutdown was asked for.
    pub shutdown_grace: u64,
}

/// The settings of the gateway's SSH server.
pub fn server_settings() -> (r: ServerSettings)
    ensures
        r == (ServerSettings {
            inactivity_timeout: 3600,
            auth_rejection_time: 1,
            auth_rejection_time_initial: 0,
            nodelay: true,
            public_key_only: true,
            shutdown_grace: 1,
        }),
{
    ServerSettings {
        inactivity_timeout: 3600,
        auth_rejection_time: 1,
        auth_rejection_time_initial: 0,
        nodelay: true,
        public_key_only: true,
        shutdown_grace: 1,
    }
}

/// A selection that is within the table stays within it, whatever key is
/// pressed.
pub proof fn selection_stays_in_table(h: HandlerView, input: Input)
    requires
        h.selected.is_some() ==> h.selected.unwrap() < h.tunnels.len(),
    ensures
        h.after_input(input).selected.is_some() ==> h.after_input(input).selected.unwrap()
            < h.after_input(input).tunnels.len(),
{
}

/// Only the delete key takes a tunnel from the session, and it takes the
/// selected one; no key adds one.
pub proof fn only_delete_drops_a_tunnel(h: HandlerView, input: Input)
    ensures
        h.after_input(input).tunnels == (if h.rename_buffer.is_none() && input == Input::Delete
            && h.selection_valid() {
            h.tunnels.remove(h.selected.unwrap() as int)
        } else {
            h.tunnels
        }),
{
}

/// Whether every tunnel that is alive in `v` and is none of `own` is in
/// `w` what it is in `v`.
pub open spec fn strangers_kept(v: RegistryView, w: RegistryView, own: Seq<u64>) -> bool {
    forall|other: u64|
        !own.contains(other) && #[trigger] v.holds(other) ==> w.holds(other) && w.tunnel(other)
            == v.tunnel(other)
}

/// Setting the access of some tunnels leaves every other tunnel as it was.
pub proof fn access_all_keeps_strangers(v: RegistryView, ids: Seq<u64>, access: Access)
    requires
        v.wf(),
    ensures
        access_all(v, ids, access).wf(),
        strangers_kept(v, access_all(v, ids, access), ids),
    decreases ids.len(),
{
    if ids.len() > 0 {
        let before = access_all(v, ids.drop_last(), access);
        access_all_keeps_strangers(v, ids.drop_last(), access);
        one_tunnel_at_a_time(before, ids.last(), Seq::empty(), Seq::empty(), access);
        let after = access_all(v, ids, access);
        assert forall|other: u64| !ids.contains(other) && #[trigger] v.holds(other) implies after.holds(
            other,
        ) && after.tunnel(other) == v.tunnel(other) by {
            assert(ids.last() == ids[ids.len() - 1]);
            assert(other != ids.last());
            if ids.drop_last().contains(other) {
                let k = choose|k: int| 0 <= k < ids.drop_last().len() && ids.drop_last()[k] == other;
                assert(ids[k] == other);
            }
            assert(before.holds(other));
        }
    }
}

/// The keys of one session never change a tunnel of another: after any key
/// press the registry is well formed, and every tunnel that the session
/// does not own is what it was.
pub proof fn input_keeps_strangers(
    h: HandlerView,
    v: RegistryView,
    input: Input,
    candidate: Seq<char>,
)
    requires
        v.wf(),
    ensures
        h.registry_after_input(v, input, candidate).wf(),
        strangers_kept(v, h.registry_after_input(v, input, candidate), h.tunnels),
{
    let after = h.registry_after_input(v, input, candidate);
    if h.selection_valid() {
        let id = h.tunnels[h.selected.unwrap() as int];
        let name = match h.rename_buffer {
            Some(buffer) => buffer,
            None => Seq::empty(),
        };
        one_tunnel_at_a_time(v, id, name, candidate, Access::Public);
        one_tunnel_at_a_time(v, id, name, candidate, Access::Protected);
        if h.user.is_some() {
            one_tunnel_at_a_time(v, id, name, candidate, Access::Private(h.user.unwrap()));
        }
        assert(h.tunnels.contains(id));
    }
    access_all_keeps_strangers(v, h.tunnels, Access::Public);
    access_all_keeps_strangers(v, h.tunnels, Access::Protected);
    if h.user.is_some() {
        access_all_keeps_strangers(v, h.tunnels, Access::Private(h.user.unwrap()));
    }
}

} // verus!
