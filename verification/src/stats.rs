//! Traffic counters of a tunnel.
use vstd::prelude::*;
use crate::units::Unit;

verus! {

/// Connections opened through a tunnel and the bytes that went through it.
/// The counters wrap at the machine word, as an atomic addition does.
#[derive(Clone, Copy, Debug, PartialEq, Eq, Structural)]
pub struct Stats {
    pub connections: usize,
    pub rx: usize,
    pub tx: usize,
}

/// How one poll of the tunnel's stream ended.
#[derive(Clone, Copy, Debug, PartialEq, Eq, Structural)]
pub enum Polled {
    /// The stream was not ready.
    Pending,
    /// The stream reported an error.
    Failed,
    /// That many bytes were moved.
    Ready(usize),
}

/// The sum of two counters, wrapped at the machine word.
pub open spec fn wrapped_sum(a: usize, b: usize) -> usize {
    vstd::wrapping::usize_specs::wrapping_add(a, b)
}

impl Stats {
    /// Counters that are all zero.
    pub fn new() -> (r: Stats)
        ensures
            r == (Stats { connections: 0, rx: 0, tx: 0 }),
    {
        Stats { connections: 0, rx: 0, tx: 0 }
    }

    pub fn add_connection(&mut self)
        ensures
            *final(self) == (Stats { connections: wrapped_sum(old(self).connections, 1), ..*old(self) }),
    {
        self.connections = self.connections.wrapping_add(1);
    }

    pub fn add_rx_bytes(&mut self, n: usize)
        ensures
            *final(self) == (Stats { rx: wrapped_sum(old(self).rx, n), ..*old(self) }),
    {
        self.rx = self.rx.wrapping_add(n);
    }

    pub fn add_tx_bytes(&mut self, n: usize)
        ensures
            *final(self) == (Stats { tx: wrapped_sum(old(self).tx, n), ..*old(self) }),
    {
        self.tx = self.tx.wrapping_add(n);
    }

    pub fn connections(&self) -> (r: usize)
        ensures
            r == self.connections,
    {
        self.connections
    }

    pub fn rx(&self) -> (r: Unit)
        ensures
            r.value() == self.rx,
            r.unit() == "B"@,
    {
        Unit::new(self.rx, "B")
    }

    pub fn tx(&self) -> (r: Unit)
        ensures
            r.value() == self.tx,
            r.unit() == "B"@,
    {
        Unit::new(self.tx, "B")
    }

    /// The counters after a read from the developer's side of the stream:
    /// what was read travels on to the HTTP client and counts as
    /// transmitted. A poll that moved nothing leaves them alone.
    pub open spec fn after_read(self, polled: Polled) -> Stats {
        match polled {
            Polled::Ready(n) => Stats { tx: wrapped_sum(self.tx, n), ..self },
            _ => self,
        }
    }

    /// The counters after a write towards the developer's side: what was
    /// written came from the HTTP client and counts as received.
    pub open spec fn after_write(self, polled: Polled) -> Stats {
        match polled {
            Polled::Ready(n) => Stats { rx: wrapped_sum(self.rx, n), ..self },
            _ => self,
        }
    }

    pub fn record_read(&mut self, polled: Polled)
        ensures
            *final(self) == old(self).after_read(polled),
    {
        if let Polled::Ready(n) = polled {
            self.add_tx_bytes(n);
        }
    }

    pub fn record_write(&mut self, polled: Polled)
        ensures
            *final(self) == old(self).after_write(polled),
    {
        if let Polled::Ready(n) = polled {
            self.add_rx_bytes(n);
        }
    }
}

/// A counter never decreases for as long as it stays within the machine
/// word: adding `n` bytes gives exactly `n` more.
pub proof fn counters_grow(stats: Stats, n: usize)
    requires
        stats.rx + n <= usize::MAX,
        stats.tx + n <= usize::MAX,
    ensures
        stats.after_write(Polled::Ready(n)).rx == stats.rx + n,
        stats.after_read(Polled::Ready(n)).tx == stats.tx + n,
        stats.after_write(Polled::Ready(n)).rx >= stats.rx,
        stats.after_read(Polled::Ready(n)).tx >= stats.tx,
        stats.after_write(Polled::Failed) == stats,
        stats.after_read(Polled::Failed) == stats,
        stats.after_write(Polled::Pending) == stats,
        stats.after_read(Polled::Pending) == stats,
{
}

} // verus!
