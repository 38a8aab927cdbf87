//! The header mapping of requests and responses: an ordered list of
//! name/value pairs where a later entry for a name overrides an
//! earlier one (last-write-wins), as the wire codec requires.
use vstd::prelude::*;

verus! {

/// One header entry: a name and a value, both raw bytes.
#[derive(Clone, Debug)]
pub struct Header {
    pub name: Vec<u8>,
    pub value: Vec<u8>,
}

/// The mathematical image of one header entry.
pub ghost struct HeaderModel {
    pub name: Seq<u8>,
    pub value: Seq<u8>,
}

impl View for Header {
    type V = HeaderModel;

    open spec fn view(&self) -> HeaderModel {
        HeaderModel { name: self.name@, value: self.value@ }
    }
}

/// The value the mapping gives `name`: that of the last entry whose
/// name matches, so a later duplicate overrides an earlier one.
pub open spec fn lookup(hs: Seq<HeaderModel>, name: Seq<u8>) -> Option<Seq<u8>>
    decreases hs.len(),
{
    if hs.len() == 0 {
        None
    } else if hs.last().name == name {
        Some(hs.last().value)
    } else {
        lookup(hs.drop_last(), name)
    }
}

/// A header mapping, kept in insertion order.
#[derive(Clone, Debug)]
pub struct Headers {
    pub entries: Vec<Header>,
}

impl View for Headers {
    type V = Seq<HeaderModel>;

    open spec fn view(&self) -> Seq<HeaderModel> {
        self.entries@.map_values(|h: Header| h@)
    }
}

impl Headers {
    /// An empty mapping.
    pub fn new() -> (r: Headers)
        ensures
            r@ =~= Seq::<HeaderModel>::empty(),
    {
        Headers { entries: Vec::new() }
    }

    /// How many entries the mapping holds.
    pub fn len(&self) -> (r: usize)
        ensures
            r == self@.len(),
    {
        self.entries.len()
    }

    /// Record `name: value`; a later entry for the same name wins on
    /// lookup.
    pub fn insert(&mut self, name: Vec<u8>, value: Vec<u8>)
        ensures
            final(self)@ =~= old(self)@.push(HeaderModel { name: name@, value: value@ }),
    {
        let ghost before = self@;
        self.entries.push(Header { name, value });
        proof {
            assert(self@ =~= before.push(self.entries@.last()@));
        }
    }

    /// The value recorded for `name`, if any (the latest one).
    pub fn get(&self, name: &Vec<u8>) -> (r: Option<&Vec<u8>>)
        ensures
            match r {
                Some(v) => lookup(self@, name@) == Some(v@),
                None => lookup(self@, name@) is None,
            },
    {
        let mut i: usize = self.entries.len();
        proof {
            assert(self@.take(i as int) =~= self@);
        }
        while i > 0
            invariant
                i <= self@.len(),
                self@.len() == self.entries@.len(),
                lookup(self@, name@) == lookup(self@.take(i as int), name@),
            decreases i,
        {
            if crate::text::bytes_eq(&self.entries[i - 1].name, name) {
                proof {
                    assert(self@.take(i as int).last() == self@[i - 1]);
                }
                return Some(&self.entries[i - 1].value);
            }
            proof {
                assert(self@.take(i as int).last() == self@[i - 1]);
                assert(self@.take(i as int).drop_last() =~= self@.take(i - 1));
            }
            i = i - 1;
        }
        None
    }
}

} // verus!
