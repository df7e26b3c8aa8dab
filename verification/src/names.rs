//! The pool of readable names from which subdomains are drawn.
use vstd::prelude::*;
use rand::rngs::OsRng;
use rand::seq::SliceRandom;

verus! {

/// The names of the pool, in the order in which `animals` lists them.
pub open spec fn pool() -> Seq<Seq<char>> {
    seq![
        "alpaca"@, "badger"@, "beaver"@, "bison"@, "camel"@, "cheetah"@, "cobra"@, "coyote"@,
        "dingo"@, "dolphin"@, "falcon"@, "ferret"@, "gazelle"@, "gecko"@, "heron"@, "hyena"@,
        "iguana"@, "jackal"@, "jaguar"@, "kitten"@, "koala"@, "lemur"@, "llama"@, "lynx"@,
        "marmot"@, "moose"@, "narwhal"@, "ocelot"@, "otter"@, "panda"@, "puffin"@, "puppy"@,
        "quokka"@, "rabbit"@, "raven"@, "salmon"@, "tapir"@, "toucan"@, "walrus"@, "wombat"@,
    ]
}

/// Whether `name` is one of the pool's names.
pub open spec fn in_pool(name: Seq<char>) -> bool {
    exists|i: int| 0 <= i < pool().len() && pool()[i] == name
}

/// The pool as a list.
pub fn animals() -> (r: Vec<&'static str>)
    ensures
        r@.len() == pool().len(),
        r@.len() == 40,
        forall|i: int| 0 <= i < r@.len() ==> r@[i]@ == pool()[i],
{
    vec![
        "alpaca", "badger", "beaver", "bison", "camel", "cheetah", "cobra", "coyote",
        "dingo", "dolphin", "falcon", "ferret", "gazelle", "gecko", "heron", "hyena",
        "iguana", "jackal", "jaguar", "kitten", "koala", "lemur", "llama", "lynx",
        "marmot", "moose", "narwhal", "ocelot", "otter", "panda", "puffin", "puppy",
        "quokka", "rabbit", "raven", "salmon", "tapir", "toucan", "walrus", "wombat",
    ]
}

/// Calls `SliceRandom::choose` of rand on the list, with the operating
/// system's generator. Trusted: an empty list gives nothing, any other list
/// gives one of its elements; which one is left open.
#[verifier::external_body]
fn pick(names: &Vec<&'static str>) -> (r: Option<&'static str>)
    ensures
        r.is_none() == (names@.len() == 0),
        r.is_some() ==> exists|i: int| 0 <= i < names@.len() && names@[i]@ == r.unwrap()@,
{
    names.choose(&mut OsRng).copied()
}

/// A name of the pool, picked at random.
pub fn get_animal_name() -> (r: &'static str)
    ensures
        in_pool(r@),
{
    let names = animals();
    match pick(&names) {
        Some(name) => name,
        None => "kitten",
    }
}

/// The pool is not empty: `kitten` is one of its names.
pub proof fn lemma_pool_has_kitten()
    ensures
        in_pool("kitten"@),
{
    assert(pool()[19] == "kitten"@);
}

} // verus!
