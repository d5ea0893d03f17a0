//! Names for sessions that were not given one.
use vstd::prelude::*;
use vstd::string::*;

use crate::guid;
use crate::guid::GUID;
use crate::text;

verus! {

/// The text of a random identifier, or nothing when there is none.
pub open spec fn random_text(random: Option<GUID>) -> Seq<char> {
    match random {
        Some(g) => text::ascii_chars(guid::guid_ascii(g)),
        None => Seq::empty(),
    }
}

/// A text that is unique when `random` is.
pub fn rand_string(random: Option<GUID>) -> (r: String)
    ensures
        r@ == random_text(random),
{
    match random {
        Some(g) => g.to_text(),
        None => String::new(),
    }
}

/// The name of a session that was not given one.
pub fn default_trace_name(random: Option<GUID>) -> (r: String)
    ensures
        r@ == "n4r1b-trace-"@ + random_text(random),
{
    let mut name = "n4r1b-trace-".to_owned();
    let unique = rand_string(random);
    name.append(unique.as_str());
    name
}

/// Names made from different identifiers differ.
pub proof fn random_texts_are_distinct(a: GUID, b: GUID)
    ensures
        random_text(Some(a)) == random_text(Some(b)) ==> a == b,
        random_text(Some(a)).len() == 36,
        random_text(None).len() == 0,
{
    guid::texts_are_distinct_and_upper_case(a, b);
    let x = random_text(Some(a));
    let y = random_text(Some(b));
    if x == y {
        assert(guid::guid_ascii(b).len() == 36) by {
            guid::texts_are_distinct_and_upper_case(b, a);
        }
        guid::guid_text_round_trip(a);
        guid::guid_text_round_trip(b);
        assert forall|i: int| 0 <= i < 36 implies guid::guid_ascii(a)[i] == guid::guid_ascii(
            b,
        )[i] by {
            assert(x[i] == y[i]);
        }
        assert(guid::guid_ascii(a) =~= guid::guid_ascii(b));
    }
}

} // verus!
