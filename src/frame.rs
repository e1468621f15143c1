//! The ingestion frame: `device_id;co;co2;...;pm_particles_100`, fifteen
//! fields separated by `;`.
use vstd::prelude::*;
use crate::models::{field_value, ESPRecievedEvent, PmValues};

verus! {

/// Number of fields in a well-formed frame: the device id and fourteen values.
pub const FRAME_FIELDS: usize = 15;

/// The pieces of `s` between `;` separators, in order; adjacent separators,
/// or one at either end, give empty pieces.
pub open spec fn split_fields(s: Seq<char>) -> Seq<Seq<char>>
    decreases s.len(),
{
    if s.len() == 0 {
        seq![Seq::empty()]
    } else {
        let init = split_fields(s.drop_last());
        if s.last() == ';' {
            init.push(Seq::empty())
        } else {
            init.update(init.len() - 1, init.last().push(s.last()))
        }
    }
}

/// Number of `;` in `s`.
pub open spec fn separator_count(s: Seq<char>) -> nat
    decreases s.len(),
{
    if s.len() == 0 {
        0
    } else {
        separator_count(s.drop_last()) + if s.last() == ';' { 1nat } else { 0nat }
    }
}

/// A text always splits into one more piece than it has separators.
pub proof fn lemma_field_count(s: Seq<char>)
    ensures
        split_fields(s).len() == separator_count(s) + 1,
    decreases s.len(),
{
    if s.len() > 0 {
        lemma_field_count(s.drop_last());
    }
}

/// The text that `str::trim` leaves of `s`.
pub uninterp spec fn trim_of(s: Seq<char>) -> Seq<char>;

/// Relies on `str::trim`: the text without leading and trailing white space,
/// a function of the text alone.
#[verifier::external_body]
fn trim_text(s: &str) -> (r: &str)
    ensures
        r@ == trim_of(s@),
{
    s.trim()
}

/// Relies on `str::split` with a `char` pattern: the pieces between the
/// separators, in order, with an empty piece wherever two separators meet or
/// one stands at either end.
#[verifier::external_body]
fn split_semicolons(s: &str) -> (r: Vec<String>)
    ensures
        r@.len() == split_fields(s@).len(),
        forall|i: int| 0 <= i < r@.len() ==> #[trigger] r@[i]@ == split_fields(s@)[i],
{
    s.split(';').map(String::from).collect()
}

/// A frame with the right number of fields: the device id and the fourteen
/// value tokens, still as text.
#[derive(Debug)]
pub struct Frame {
    pub device_id: String,
    pub tokens: Vec<String>,
}

/// Why a frame was rejected.
#[derive(Debug, PartialEq, Eq)]
pub enum FrameError {
    /// The frame did not split into fifteen fields; holds the count found.
    WrongFieldCount(usize),
}

/// `r` is what parsing the (already trimmed) text `t` yields: the fields of
/// `t` when there are fifteen of them, else the count that was found.
pub open spec fn parses_to(t: Seq<char>, r: Result<Frame, FrameError>) -> bool {
    let fields = split_fields(t);
    match r {
        Ok(f) => {
            &&& fields.len() == FRAME_FIELDS
            &&& f.device_id@ == fields[0]
            &&& f.tokens@.len() == FRAME_FIELDS - 1
            &&& forall|i: int| 0 <= i < FRAME_FIELDS - 1 ==> #[trigger] f.tokens@[i]@ == fields[i + 1]
        },
        Err(FrameError::WrongFieldCount(n)) => {
            &&& fields.len() != FRAME_FIELDS
            &&& n == fields.len()
        },
    }
}

/// Splits an already trimmed frame into its device id and value tokens.
pub fn parse_trimmed(t: &str) -> (r: Result<Frame, FrameError>)
    ensures
        parses_to(t@, r),
        r is Ok <==> split_fields(t@).len() == FRAME_FIELDS,
{
    let mut parts = split_semicolons(t);
    let n = parts.len();
    if n != FRAME_FIELDS {
        return Err(FrameError::WrongFieldCount(n));
    }
    let ghost before = parts@;
    let device_id = parts.remove(0);
    assert forall|i: int| 0 <= i < FRAME_FIELDS - 1 implies #[trigger] parts@[i]@ == split_fields(t@)[i + 1] by {
        assert(parts@[i] == before[i + 1]);
    }
    Ok(Frame { device_id, tokens: parts })
}

/// Parses one raw frame: trims it, then splits it into fifteen fields.
pub fn parse_frame(msg: &str) -> (r: Result<Frame, FrameError>)
    ensures
        parses_to(trim_of(msg@), r),
        r is Ok <==> split_fields(trim_of(msg@)).len() == FRAME_FIELDS,
{
    let t = trim_text(msg);
    parse_trimmed(t)
}

impl Frame {
    /// The event of this frame, given the outcome of reading each value
    /// token as a number (in token order).
    pub fn into_event(self, parsed: &Vec<Option<u32>>) -> (r: ESPRecievedEvent)
        requires
            parsed@.len() == FRAME_FIELDS - 1,
        ensures
            r.id@ == self.device_id@,
            forall|i: int| 0 <= i < FRAME_FIELDS - 1 ==> #[trigger] r.data.fields()[i] == field_value(parsed@[i]),
    {
        let data = PmValues::from_parsed(parsed);
        ESPRecievedEvent { id: self.device_id, data }
    }
}

} // verus!
