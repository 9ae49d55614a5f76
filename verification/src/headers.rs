//! An ordered header set.  Entries keep their insertion order and duplicates
//! are allowed; where two entries share a name the later one wins, which is
//! what merging per-request headers over the client's defaults relies on.
use vstd::prelude::*;

verus! {

/// The spec view of one header entry: name, value, and sensitivity.
pub type HeaderView = (Seq<char>, Seq<char>, bool);

/// One header entry: a name, a value, and whether the value is sensitive
/// (it must then never appear in diagnostics).
pub struct Header {
    pub name: String,
    pub value: String,
    pub sensitive: bool,
}

/// The header set.  Names are taken as given; the well-known names this
/// crate inserts itself are lower case, as they travel on the wire.
pub struct HeaderMap {
    pub entries: Vec<Header>,
}

impl View for Header {
    type V = HeaderView;

    open spec fn view(&self) -> HeaderView {
        (self.name@, self.value@, self.sensitive)
    }
}

impl View for HeaderMap {
    type V = Seq<HeaderView>;

    open spec fn view(&self) -> Seq<HeaderView> {
        Seq::new(self.entries@.len(), |i: int| self.entries@[i]@)
    }
}

/// Whether a character may stand in a header value: horizontal tab, or
/// anything from space upward except delete — what `HeaderValue::from_str`
/// accepts of each byte of the string (every byte of a character above
/// ASCII lies in the accepted range).
pub open spec fn is_header_value_char(c: char) -> bool {
    c == '\t' || (c as u32 >= 32 && c as u32 != 127)
}

/// Whether a string is a legal header value.
pub open spec fn valid_header_value(s: Seq<char>) -> bool {
    forall|i: int| 0 <= i < s.len() ==> is_header_value_char(s[i])
}

/// What a lookup of `name` in `s` finds: the value and sensitivity of the
/// last entry with that name, or `None` where no entry has it.
pub open spec fn lookup(s: Seq<HeaderView>, name: Seq<char>) -> Option<(Seq<char>, bool)>
    decreases s.len(),
{
    if s.len() == 0 {
        None
    } else if s.last().0 == name {
        Some((s.last().1, s.last().2))
    } else {
        lookup(s.drop_last(), name)
    }
}

impl HeaderMap {
    pub fn new() -> (r: HeaderMap)
        ensures
            r@ == Seq::<HeaderView>::empty(),
    {
        let r = HeaderMap { entries: Vec::new() };
        proof {
            assert(r@ =~= Seq::<HeaderView>::empty());
        }
        r
    }

    /// Appends an entry; because the last entry wins, this also overrides any
    /// earlier entry with the same name.
    pub fn insert(&mut self, name: String, value: String)
        ensures
            final(self)@ == old(self)@.push((name@, value@, false)),
    {
        self.entries.push(Header { name, value, sensitive: false });
        proof {
            assert(self@ =~= old(self)@.push((name@, value@, false)));
        }
    }

    /// As `insert`, with the value marked sensitive.
    pub fn insert_sensitive(&mut self, name: String, value: String)
        ensures
            final(self)@ == old(self)@.push((name@, value@, true)),
    {
        self.entries.push(Header { name, value, sensitive: true });
        proof {
            assert(self@ =~= old(self)@.push((name@, value@, true)));
        }
    }

    /// Moves every entry of `other` behind the entries of `self`, so that
    /// `other`'s entries override on a name clash.
    pub fn append(&mut self, other: HeaderMap)
        ensures
            final(self)@ == old(self)@ + other@,
    {
        let mut rest = other;
        self.entries.append(&mut rest.entries);
        proof {
            assert(self@ =~= old(self)@ + other@);
        }
    }

    pub fn duplicate(&self) -> (r: HeaderMap)
        ensures
            r@ == self@,
    {
        let mut entries: Vec<Header> = Vec::new();
        let mut i: usize = 0;
        while i < self.entries.len()
            invariant
                i <= self.entries.len(),
                entries@.len() == i,
                forall|j: int| 0 <= j < i ==> entries@[j]@ == self.entries@[j]@,
            decreases self.entries.len() - i,
        {
            let h = &self.entries[i];
            entries.push(Header { name: h.name.clone(), value: h.value.clone(), sensitive: h.sensitive });
            i = i + 1;
        }
        let r = HeaderMap { entries };
        proof {
            assert(r@ =~= self@);
        }
        r
    }

    /// The entry a name resolves to, per `lookup`: the last one with that name.
    pub fn get<'a>(&'a self, name: &String) -> (r: Option<&'a Header>)
        ensures
            match r {
                Some(h) => h.name@ == name@ && lookup(self@, name@) == Some(
                    (h.value@, h.sensitive),
                ),
                None => lookup(self@, name@) is None,
            },
    {
        proof {
            assert(self@.take(self.entries@.len() as int) =~= self@);
        }
        let mut i: usize = self.entries.len();
        while i > 0
            invariant
                i <= self.entries.len(),
                lookup(self@, name@) == lookup(self@.take(i as int), name@),
            decreases i,
        {
            i = i - 1;
            proof {
                assert(self@.take(i + 1).drop_last() =~= self@.take(i as int));
                assert(self@.take(i + 1).last() == self@[i as int]);
            }
            if self.entries[i].name == *name {
                return Some(&self.entries[i]);
            }
        }
        None
    }
}

/// Law: a lookup in a concatenation of two header sets finds what the second
/// holds where it holds anything for the name, and what the first holds
/// otherwise — merged headers override the defaults on a name clash.
pub proof fn lemma_lookup_concat(a: Seq<HeaderView>, b: Seq<HeaderView>, name: Seq<char>)
    ensures
        lookup(a + b, name) == (if lookup(b, name) is Some {
            lookup(b, name)
        } else {
            lookup(a, name)
        }),
    decreases b.len(),
{
    if b.len() == 0 {
        assert(a + b =~= a);
    } else {
        assert((a + b).last() == b.last());
        assert((a + b).drop_last() =~= a + b.drop_last());
        lemma_lookup_concat(a, b.drop_last(), name);
    }
}

} // verus!
