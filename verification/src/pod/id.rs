//! Identifiers of pods (chosen by the user) and of Docker containers (chosen by Docker).

use vstd::prelude::*;

verus! {

/// User-assigned ID assigned to a managed container in deimos
#[derive(Debug, PartialEq, Eq, Hash)]
pub struct DeimosId(String);

/// ID of a docker container as retrieved from the Docker API
#[derive(Debug, PartialEq, Eq, Hash)]
pub struct DockerId(String);

impl View for DeimosId {
    type V = Seq<char>;

    closed spec fn view(&self) -> Seq<char> {
        self.0@
    }
}

impl View for DockerId {
    type V = Seq<char>;

    closed spec fn view(&self) -> Seq<char> {
        self.0@
    }
}

impl DeimosId {
    /// Wrap the given text as a pod ID
    pub fn new(id: String) -> (this: Self)
        ensures
            this@ == id@,
    {
        DeimosId(id)
    }

    /// Copy data from this shared ID to be used in external APIs
    pub fn owned(&self) -> (s: String)
        ensures
            s@ == self@,
    {
        self.0.clone()
    }

    /// Borrow the ID's text
    pub fn as_str(&self) -> (s: &str)
        ensures
            s@ == self@,
    {
        self.0.as_str()
    }

    /// The ID as shown in messages: wrapped in single quotes
    pub fn display_text(&self) -> (s: String)
        ensures
            s@ == "'"@ + self@ + "'"@,
    {
        let mut s = "'".to_owned();
        s.append(self.0.as_str());
        s.append("'");
        s
    }
}

impl DockerId {
    /// Wrap the ID text received from Docker
    pub fn new(id: String) -> (this: Self)
        ensures
            this@ == id@,
    {
        DockerId(id)
    }

    /// Number of bytes in the ID's UTF-8 text
    pub closed spec fn byte_len(&self) -> nat {
        vstd::utf8::encode_utf8(self.0@).len()
    }

    /// Copy data from this shared ID to be used in external APIs
    pub fn owned(&self) -> (s: String)
        ensures
            s@ == self@,
    {
        self.0.clone()
    }

    /// Borrow the ID's text
    pub fn as_str(&self) -> (s: &str)
        ensures
            s@ == self@,
    {
        self.0.as_str()
    }

    /// The ID as shown in messages: the text up to byte `max(len, 8)`, that is the whole ID;
    /// IDs shorter than eight bytes cannot be shown this way
    pub fn display_text(&self) -> (s: String)
        requires
            self.byte_len() >= 8,
        ensures
            s@ == self@,
    {
        self.0.clone()
    }
}

impl Clone for DeimosId {
    fn clone(&self) -> (copy: Self)
        ensures
            copy == *self,
    {
        DeimosId(self.0.clone())
    }
}

impl Clone for DockerId {
    fn clone(&self) -> (copy: Self)
        ensures
            copy == *self,
    {
        DockerId(self.0.clone())
    }
}

impl From<String> for DockerId {
    fn from(value: String) -> (id: Self)
        ensures
            id@ == value@,
    {
        DockerId(value)
    }
}

impl vstd::std_specs::convert::FromSpecImpl<String> for DockerId {
    open spec fn obeys_from_spec() -> bool {
        true
    }

    closed spec fn from_spec(v: String) -> Self {
        DockerId(v)
    }
}

/// An ID converted from text holds that text
pub proof fn lemma_docker_id_from_text(v: String)
    ensures
        <DockerId as vstd::std_specs::convert::FromSpec<String>>::from_spec(v)@ == v@,
{
}

} // verus!
