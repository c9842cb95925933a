//! Paths and URIs of actors.
use std::hash::{Hash, Hasher};
use std::sync::Arc;
use vstd::prelude::*;
use vstd::std_specs::cmp::PartialEqSpecImpl;

verus! {

/// `String::push_str` of std appends the given text.
pub assume_specification[ String::push_str ](s: &mut String, text: &str)
    ensures
        final(s)@ == old(s)@ + text@,
;

/// Calls `Hash::hash` of std's `String`, which feeds the text to the hasher.
/// Nothing is claimed of the hasher.
#[verifier::external_body]
fn hash_text<H: Hasher>(text: &String, state: &mut H) {
    text.hash(state)
}

/// Calls `==` of std between a `String` and a `str`, which holds when the two
/// spell the same.
#[verifier::external_body]
fn text_is(text: &String, other: &str) -> (r: bool)
    ensures
        r == (text@ == other@),
{
    text == other
}

/// What std's `Debug` prints for a text: the text between double quotes, with
/// its special characters escaped.
pub uninterp spec fn debug_quoted(text: Seq<char>) -> Seq<char>;

/// Formats a `String` with `{:?}`, which is `Debug::fmt` of std's `str`. The
/// result depends on the text alone.
#[verifier::external_body]
fn quoted(text: &String) -> (r: String)
    ensures
        r@ == debug_quoted(text@),
{
    format!("{:?}", text)
}

/// The path of an actor in the hierarchy of its system.
#[derive(Clone)]
pub struct ActorPath(Arc<String>);

impl View for ActorPath {
    type V = Seq<char>;

    closed spec fn view(&self) -> Seq<char> {
        self.0@
    }
}

impl ActorPath {
    /// The path that spells `path`.
    pub fn new(path: &str) -> (r: Self)
        ensures
            r@ == path@,
    {
        ActorPath(Arc::new(path.to_string()))
    }

    /// The path as text.
    pub fn to_string(&self) -> (text: String)
        ensures
            text@ == self@,
    {
        (*self.0).clone()
    }

    /// The path as a quoted text, as std's `Debug` prints a string.
    pub fn to_debug_string(&self) -> (text: String)
        ensures
            text@ == debug_quoted(self@),
    {
        quoted(&*self.0)
    }

}

impl PartialEq<str> for ActorPath {
    /// A path equals a text when it spells it.
    fn eq(&self, other: &str) -> (r: bool) {
        text_is(&*self.0, other)
    }
}

impl PartialEqSpecImpl<str> for ActorPath {
    open spec fn obeys_eq_spec() -> bool {
        true
    }

    open spec fn eq_spec(&self, other: &str) -> bool {
        self@ == other@
    }
}

impl PartialEq for ActorPath {
    /// Two paths are equal when they spell the same.
    fn eq(&self, other: &ActorPath) -> (r: bool) {
        *self.0 == *other.0
    }
}

impl PartialEqSpecImpl for ActorPath {
    open spec fn obeys_eq_spec() -> bool {
        true
    }

    open spec fn eq_spec(&self, other: &ActorPath) -> bool {
        self@ == other@
    }
}

impl Eq for ActorPath {

}

impl Hash for ActorPath {
    /// A path hashes as its text does.
    fn hash<H: Hasher>(&self, state: &mut H) {
        hash_text(&*self.0, state)
    }
}

/// Where an actor lives: its name, its path and the host of its system. Two
/// URIs are the same when their paths are.
#[derive(Clone)]
pub struct ActorUri {
    pub name: Arc<String>,
    pub path: ActorPath,
    pub host: Arc<String>,
}

impl ActorUri {
    /// The URI as text: its path.
    pub fn to_string(&self) -> (text: String)
        ensures
            text@ == self.path@,
    {
        self.path.to_string()
    }

    /// The URI with its host, as `host://path`.
    pub fn to_debug_string(&self) -> (text: String)
        ensures
            text@ == self.host@ + "://"@ + self.path@,
    {
        let mut text = (*self.host).clone();
        text.push_str("://");
        let path = self.path.to_string();
        text.push_str(path.as_str());
        text
    }
}

impl PartialEq for ActorUri {
    /// Two URIs are equal when their paths are.
    fn eq(&self, other: &ActorUri) -> (r: bool) {
        self.path == other.path
    }
}

impl PartialEqSpecImpl for ActorUri {
    open spec fn obeys_eq_spec() -> bool {
        true
    }

    open spec fn eq_spec(&self, other: &ActorUri) -> bool {
        self.path@ == other.path@
    }
}

impl Eq for ActorUri {

}

impl Hash for ActorUri {
    /// A URI hashes as its path does.
    fn hash<H: Hasher>(&self, state: &mut H) {
        self.path.hash(state)
    }
}

} // verus!
