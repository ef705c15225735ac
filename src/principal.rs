//! The authenticated identity carried inside a token, and its encoding as
//! a single subject string `id:name`.
//!
//! The identifier may not contain the separator, so that the subject always
//! splits back into exactly the two fields it was made from.

use vstd::prelude::*;
use vstd::string::*;

verus! {

/// The character that separates the identifier from the name in a subject.
pub open spec fn separator() -> char {
    ':'
}

/// No character of `s` is the separator.
pub open spec fn free_of_separator(s: Seq<char>) -> bool {
    forall|i: int| 0 <= i < s.len() ==> s[i] != separator()
}

/// The subject string that encodes the pair `(id, name)`.
pub open spec fn subject_of(id: Seq<char>, name: Seq<char>) -> Seq<char> {
    id + seq![separator()] + name
}

/// `i` is the position of the first separator in `s`.
pub open spec fn first_separator_at(s: Seq<char>, i: int) -> bool {
    0 <= i < s.len() && s[i] == separator() && free_of_separator(s.take(i))
}

/// Splits a subject at its first separator; `None` where it holds none.
pub open spec fn split_subject(s: Seq<char>) -> Option<(Seq<char>, Seq<char>)> {
    if exists|i: int| first_separator_at(s, i) {
        let i = choose|i: int| first_separator_at(s, i);
        Some((s.take(i), s.skip(i + 1)))
    } else {
        None
    }
}

/// The identity of an authenticated subject: an identifier free of the
/// separator, and a display name.
#[derive(Debug)]
pub struct Principal {
    id: String,
    name: String,
}

impl View for Principal {
    type V = (Seq<char>, Seq<char>);

    closed spec fn view(&self) -> (Seq<char>, Seq<char>) {
        (self.id@, self.name@)
    }
}

impl Clone for Principal {
    fn clone(&self) -> (r: Self)
        ensures
            r@ == self@,
    {
        proof {
            use_type_invariant(self);
        }
        Principal { id: self.id.clone(), name: self.name.clone() }
    }
}

/// The first separator of a string is unique.
proof fn lemma_first_separator_unique(s: Seq<char>, i: int, j: int)
    requires
        first_separator_at(s, i),
        first_separator_at(s, j),
    ensures
        i == j,
{
    if i < j {
        assert(s.take(j)[i] == s[i]);
    } else if j < i {
        assert(s.take(i)[j] == s[j]);
    }
}

/// Index of the first separator in `s`, if any.
fn find_separator(s: &str) -> (r: Option<usize>)
    ensures
        match r {
            Some(i) => first_separator_at(s@, i as int),
            None => free_of_separator(s@),
        },
{
    let n = s.unicode_len();
    let mut i: usize = 0;
    while i < n
        invariant
            n == s@.len(),
            i <= n,
            free_of_separator(s@.take(i as int)),
        decreases n - i,
    {
        if s.get_char(i) == ':' {
            return Some(i);
        }
        assert(s@.take(i as int + 1) =~= s@.take(i as int).push(s@[i as int]));
        i = i + 1;
    }
    assert(s@.take(n as int) =~= s@);
    None
}

impl Principal {
    #[verifier::type_invariant]
    spec fn inv(self) -> bool {
        free_of_separator(self.id@)
    }

    /// A principal with the given identifier and name; `None` where the
    /// identifier contains the separator.
    pub fn new(id: String, name: String) -> (r: Option<Principal>)
        ensures
            free_of_separator(id@) ==> (r matches Some(p) && p@ == (id@, name@)),
            !free_of_separator(id@) ==> r is None,
    {
        match find_separator(id.as_str()) {
            Some(_) => None,
            None => Some(Principal { id, name }),
        }
    }

    /// The identifier of the subject.
    pub fn id(&self) -> (r: &str)
        ensures
            r@ == self@.0,
    {
        self.id.as_str()
    }

    /// The display name of the subject.
    pub fn name(&self) -> (r: &str)
        ensures
            r@ == self@.1,
    {
        self.name.as_str()
    }

    /// The subject string `id:name` of this principal.
    pub fn subject(&self) -> (r: String)
        ensures
            r@ == subject_of(self@.0, self@.1),
            free_of_separator(self@.0),
    {
        proof {
            use_type_invariant(self);
        }
        let mut s = self.id.clone();
        proof {
            reveal_strlit(":");
        }
        s.append(":");
        s.append(self.name.as_str());
        assert(s@ =~= subject_of(self@.0, self@.1));
        s
    }

    /// Reads a subject string back into a principal, splitting it at its
    /// first separator; `None` where it holds no separator.
    pub fn from_subject(sub: &str) -> (r: Option<Principal>)
        ensures
            match split_subject(sub@) {
                Some(parts) => r matches Some(p) && p@ == parts,
                None => r is None,
            },
    {
        match find_separator(sub) {
            None => {
                assert(!exists|i: int| first_separator_at(sub@, i)) by {
                    if exists|i: int| first_separator_at(sub@, i) {
                        let i = choose|i: int| first_separator_at(sub@, i);
                        assert(sub@[i] == separator());
                    }
                }
                None
            },
            Some(i) => {
                let n = sub.unicode_len();
                let id = String::from_str(sub.substring_char(0, i));
                let name = String::from_str(sub.substring_char(i + 1, n));
                proof {
                    let j = choose|j: int| first_separator_at(sub@, j);
                    lemma_first_separator_unique(sub@, i as int, j);
                    assert(id@ =~= sub@.take(i as int));
                    assert(name@ =~= sub@.skip(i as int + 1));
                }
                Some(Principal { id, name })
            },
        }
    }
}

/// A subject made from an identifier free of the separator splits back into
/// exactly the identifier and the name it was made from.
pub proof fn lemma_subject_round_trip(id: Seq<char>, name: Seq<char>)
    requires
        free_of_separator(id),
    ensures
        split_subject(subject_of(id, name)) == Some((id, name)),
{
    let s = subject_of(id, name);
    let k = id.len() as int;
    assert(s.take(k) =~= id);
    assert(s[k] == separator());
    assert(first_separator_at(s, k));
    let j = choose|j: int| first_separator_at(s, j);
    lemma_first_separator_unique(s, k, j);
    assert(s.skip(k + 1) =~= name);
}

} // verus!
