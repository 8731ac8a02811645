use vstd::prelude::*;

use crate::error::DataError;

verus! {

/// The path of the resource that a cache hit asks to read.
pub const RESOURCE_PATH: &'static str = "file.txt";

/// What the text that some bytes decode to is, as `std::str::from_utf8` decides
/// it: `None` where the bytes are not valid UTF-8.
pub uninterp spec fn utf8_text(b: Seq<u8>) -> Option<Seq<char>>;

/// Relies on `std::str::from_utf8`: the outcome depends on the bytes alone.
#[verifier::external_body]
fn decode_utf8(b: &[u8]) -> (r: Option<&str>)
    ensures
        r matches Some(s) ==> utf8_text(b@) == Some(s@),
        r is None ==> utf8_text(b@) is None,
{
    std::str::from_utf8(b).ok()
}

/// What the caller does once the processor has decided.
#[derive(Debug, Clone, Copy, PartialEq, Eq, Structural)]
pub enum Action {
    /// Nothing more to do: the processing succeeded.
    Finish,
    /// Read the resource at `RESOURCE_PATH`; the processing succeeds if the
    /// read does and fails with its error otherwise.
    ReadResource,
}

/// A processor with a cache from text keys to byte values.
pub struct DataProcessor {
    cache: Vec<(String, Vec<u8>)>,
}

impl DataProcessor {
    /// The cache as a mapping from key to value.
    pub closed spec fn view(&self) -> Map<Seq<char>, Seq<u8>> {
        Map::new(
            |k: Seq<char>| exists|i: int| 0 <= i < self.cache@.len() && (#[trigger] self.cache@[i]).0@ == k,
            |k: Seq<char>| self.cache@[choose|i: int| 0 <= i < self.cache@.len() && (#[trigger] self.cache@[i]).0@ == k].1@,
        )
    }

    /// No key stands twice in the cache.
    pub closed spec fn wf(&self) -> bool {
        forall|i: int, j: int|
            0 <= i < j < self.cache@.len() ==> (#[trigger] self.cache@[i]).0@ != (#[trigger] self.cache@[j]).0@
    }

    /// What processing gives once the bytes are decoded (`None`: they were not text).
    pub open spec fn outcome(&self, decoded: Option<Seq<char>>) -> Result<Action, DataError> {
        match decoded {
            None => Err(DataError::InvalidEncoding),
            Some(t) => if self@.contains_key(t) {
                Ok(Action::ReadResource)
            } else {
                Ok(Action::Finish)
            },
        }
    }

    /// A processor with an empty cache.
    pub fn new() -> (r: DataProcessor)
        ensures
            r.wf(),
            r@ == Map::<Seq<char>, Seq<u8>>::empty(),
    {
        let r = DataProcessor { cache: Vec::new() };
        assert(r@ == Map::<Seq<char>, Seq<u8>>::empty());
        r
    }

    fn has_key(&self, key: &str) -> (r: bool)
        ensures
            r == self@.contains_key(key@),
    {
        let wanted = key.to_owned();
        let mut i: usize = 0;
        while i < self.cache.len()
            invariant
                i <= self.cache@.len(),
                wanted@ == key@,
                forall|j: int| 0 <= j < i ==> (#[trigger] self.cache@[j]).0@ != key@,
            decreases self.cache@.len() - i,
        {
            if self.cache[i].0 == wanted {
                assert(self.cache@[i as int].0@ == key@);
                return true;
            }
            i = i + 1;
        }
        false
    }

    /// Decides what to do with input that has already been decoded: `None`
    /// stands for bytes that were not valid text.
    pub fn process_decoded(&self, decoded: Option<&str>) -> (r: Result<Action, DataError>)
        ensures
            r == self.outcome(match decoded {
                Some(s) => Some(s@),
                None => None,
            }),
    {
        match decoded {
            None => Err(DataError::InvalidEncoding),
            Some(s) => if self.has_key(s) {
                Ok(Action::ReadResource)
            } else {
                Ok(Action::Finish)
            },
        }
    }

    /// Decodes the bytes as UTF-8 text and decides: invalid text is an error, a
    /// text that is a key of the cache asks for the resource to be read, any
    /// other text finishes at once. The cache is left as it was.
    pub fn process(&mut self, data: &[u8]) -> (r: Result<Action, DataError>)
        ensures
            *final(self) == *old(self),
            r == old(self).outcome(utf8_text(data@)),
            utf8_text(data@) is None ==> r == Err::<Action, DataError>(DataError::InvalidEncoding),
            utf8_text(data@) matches Some(t) && !old(self)@.contains_key(t) ==> r == Ok::<
                Action,
                DataError,
            >(Action::Finish),
    {
        let decoded = decode_utf8(data);
        self.process_decoded(decoded)
    }
}

} // verus!
