//! The poll-time histogram, kept in an `hdrhistogram::Histogram`.
use vstd::prelude::*;
use hdrhistogram::Histogram;
use hdrhistogram::serialization::Serializer;
use hdrhistogram::serialization::V2Serializer;

verus! {

/// A histogram of poll durations in nanoseconds, with two significant
/// figures, that grows to fit the values recorded.
#[derive(Debug)]
#[verifier::external_body]
pub struct PollHistogram {
    inner: Histogram<u64>,
}

/// The number of samples recorded into a histogram (`Histogram::len`).
pub uninterp spec fn sample_count(h: PollHistogram) -> u64;

/// The HdrHistogram V2 encoding of a histogram, absent where it cannot be
/// encoded.
pub uninterp spec fn v2_encoding(h: PollHistogram) -> Option<Seq<u8>>;

pub open spec fn bytes_view(r: Option<Vec<u8>>) -> Option<Seq<u8>> {
    match r {
        Some(b) => Some(b@),
        None => None,
    }
}

/// Relies on `Histogram::new`: an auto-resizing histogram with nothing
/// recorded, which it creates for every `sigfig` in `0..=5`.
#[verifier::external_body]
pub(crate) fn new_histogram(sigfig: u8) -> (r: PollHistogram)
    requires
        sigfig <= 5,
    ensures
        sample_count(r) == 0,
{
    PollHistogram { inner: Histogram::<u64>::new(sigfig).unwrap() }
}

/// Relies on `Histogram::record`: the count of the value's bucket and the
/// total count (which saturates) grow by one. The histogram, made by
/// `new_histogram`, resizes itself to fit any `u64`, so recording succeeds.
#[verifier::external_body]
pub(crate) fn record_sample(h: &mut PollHistogram, value: u64)
    ensures
        sample_count(*final(h)) == sample_count(*old(h)).saturating_add(1),
{
    let _ = h.inner.record(value);
}

/// Relies on `V2Serializer::serialize`: the histogram in the HdrHistogram V2
/// encoding, or `None` where it cannot be encoded.
#[verifier::external_body]
pub(crate) fn serialize_histogram(h: &PollHistogram) -> (r: Option<Vec<u8>>)
    ensures
        bytes_view(r) == v2_encoding(*h),
{
    let mut buf = Vec::new();
    match V2Serializer::new().serialize(&h.inner, &mut buf) {
        Ok(_) => Some(buf),
        Err(_) => None,
    }
}

} // verus!
