//! Interpretation of an embedded image's filter chain.
//!
//! The chain is processed strictly in declared order, starting from the
//! record's content bytes. `FlateDecode` replaces the buffer with its
//! inflation; `DCTDecode` leaves the buffer untouched; any other name
//! aborts the chain at once. Separately, the *last* filter alone decides
//! how the surviving bytes are to be read: as a raw sample grid, or as a
//! complete encoded container.

use std::io::Read;

use vstd::prelude::*;
use vstd::slice::slice_to_vec;
use crate::error::ConversionError;
use crate::record::{classifies, EmbeddedImageRecord, FilterKind};

verus! {

/// How the bytes left over after the filter chain are to be read.
#[derive(Debug, Clone, Copy, PartialEq, Eq, Structural)]
pub enum TerminalState {
    /// The bytes are an interleaved RGB8 sample grid.
    RawSamples,
    /// The bytes are a complete encoded image container.
    EncodedContainer,
}

/// What running a whole filter chain over a byte buffer comes to.
pub enum FilterOutcome {
    /// Every filter was handled; these are the surviving bytes.
    Applied(Seq<u8>),
    /// A filter with no defined handling was reached; its name.
    Unknown(Seq<char>),
    /// A `FlateDecode` step met a malformed or truncated stream.
    Malformed,
}

/// What flate2's `ZlibDecoder` returns for the given input: the full
/// decompressed stream, or nothing when the input is not a well-formed
/// zlib stream. The outcome depends on the input bytes alone.
pub uninterp spec fn inflate_of(data: Seq<u8>) -> Option<Seq<u8>>;

/// Relies on `flate2::read::ZlibDecoder` together with `Read::read_to_end`:
/// reading the decoder to its end inflates the whole input buffer, and
/// fails exactly when the input is not a well-formed zlib stream.
#[verifier::external_body]
fn inflate(data: &Vec<u8>) -> (r: Result<Vec<u8>, ConversionError>)
    ensures
        r is Ok <==> inflate_of(data@) is Some,
        r matches Ok(out) ==> inflate_of(data@) == Some(out@),
        r matches Err(e) ==> e == ConversionError::FilterError,
{
    let mut z = flate2::read::ZlibDecoder::new(data.as_slice());
    let mut decoded = Vec::new();
    match z.read_to_end(&mut decoded) {
        Ok(_) => Ok(decoded),
        Err(_) => Err(ConversionError::FilterError),
    }
}

/// The terminal state of a filter chain: decided by the last filter alone.
/// An empty chain, and a chain whose last filter is anything other than
/// `DCTDecode`, leave a raw sample grid; a chain ending in `DCTDecode`
/// leaves an encoded container.
pub open spec fn spec_terminal(filters: Seq<FilterKind>) -> TerminalState {
    if filters.len() > 0 && filters.last() == FilterKind::DCTDecode {
        TerminalState::EncodedContainer
    } else {
        TerminalState::RawSamples
    }
}

/// Runs the chain over the buffer, filter by filter, in declared order.
pub open spec fn spec_apply_filters(data: Seq<u8>, filters: Seq<FilterKind>) -> FilterOutcome
    decreases filters.len(),
{
    if filters.len() == 0 {
        FilterOutcome::Applied(data)
    } else {
        match filters[0] {
            FilterKind::FlateDecode => match inflate_of(data) {
                Some(out) => spec_apply_filters(out, filters.skip(1)),
                None => FilterOutcome::Malformed,
            },
            FilterKind::DCTDecode => spec_apply_filters(data, filters.skip(1)),
            FilterKind::Unsupported(name) => FilterOutcome::Unknown(name@),
        }
    }
}

/// Reads the terminal state off the last filter of the chain.
pub fn terminal_state(filters: &Vec<FilterKind>) -> (r: TerminalState)
    ensures
        r == spec_terminal(filters@),
{
    if filters.len() == 0 {
        TerminalState::RawSamples
    } else {
        match &filters[filters.len() - 1] {
            FilterKind::DCTDecode => TerminalState::EncodedContainer,
            _ => TerminalState::RawSamples,
        }
    }
}

/// Applies the record's filter chain to its content bytes and classifies
/// what is left: the surviving bytes together with the terminal state, or
/// the failure the chain ran into. Fail-fast: the first unhandled name or
/// malformed stream ends the run, and no partial buffer is returned.
pub fn apply_filters(record: &EmbeddedImageRecord) -> (r: Result<
    (Vec<u8>, TerminalState),
    ConversionError,
>)
    ensures
        spec_apply_filters(record.content@, record.filters@) matches FilterOutcome::Applied(d)
            ==> (r matches Ok(p) && p.0@ == d && p.1 == spec_terminal(record.filters@)),
        spec_apply_filters(record.content@, record.filters@) matches FilterOutcome::Unknown(n)
            ==> (r matches Err(e) && (e matches ConversionError::UnsupportedFilter(s) && s@ == n)),
        spec_apply_filters(record.content@, record.filters@) is Malformed ==> r == Err::<
            (Vec<u8>, TerminalState),
            ConversionError,
        >(ConversionError::FilterError),
{
    let mut data: Vec<u8> = slice_to_vec(record.content.as_slice());
    let n = record.filters.len();
    let mut i: usize = 0;
    proof {
        assert(record.filters@.skip(0) =~= record.filters@);
    }
    while i < n
        invariant
            i <= n,
            n == record.filters@.len(),
            spec_apply_filters(record.content@, record.filters@) == spec_apply_filters(
                data@,
                record.filters@.skip(i as int),
            ),
        decreases n - i,
    {
        proof {
            assert(record.filters@.skip(i as int).skip(1) =~= record.filters@.skip(i as int + 1));
            assert(record.filters@.skip(i as int)[0] == record.filters@[i as int]);
        }
        match &record.filters[i] {
            FilterKind::FlateDecode => {
                match inflate(&data) {
                    Ok(decoded) => {
                        data = decoded;
                    },
                    Err(e) => {
                        return Err(e);
                    },
                }
            },
            FilterKind::DCTDecode => {},
            FilterKind::Unsupported(name) => {
                return Err(ConversionError::UnsupportedFilter(name.clone()));
            },
        }
        i += 1;
    }
    let terminal = terminal_state(&record.filters);
    Ok((data, terminal))
}

/// Running a chain of declared filter names, before classification: the
/// same policy as [`spec_apply_filters`], read off the names themselves.
pub open spec fn spec_apply_names(data: Seq<u8>, names: Seq<Seq<char>>) -> FilterOutcome
    decreases names.len(),
{
    if names.len() == 0 {
        FilterOutcome::Applied(data)
    } else if names[0] == "FlateDecode"@ {
        match inflate_of(data) {
            Some(out) => spec_apply_names(out, names.skip(1)),
            None => FilterOutcome::Malformed,
        }
    } else if names[0] == "DCTDecode"@ {
        spec_apply_names(data, names.skip(1))
    } else {
        FilterOutcome::Unknown(names[0])
    }
}

/// The terminal state read off declared filter names: decided by the last
/// name alone.
pub open spec fn spec_terminal_names(names: Seq<Seq<char>>) -> TerminalState {
    if names.len() > 0 && names.last() == "DCTDecode"@ {
        TerminalState::EncodedContainer
    } else {
        TerminalState::RawSamples
    }
}

/// A classified chain behaves exactly as its declared names dictate:
/// applying the classified filters equals applying the names, and both
/// read the same terminal state off the last link.
pub proof fn lemma_classified_chain(data: Seq<u8>, kinds: Seq<FilterKind>, names: Seq<Seq<char>>)
    requires
        kinds.len() == names.len(),
        forall|i: int| 0 <= i < names.len() ==> classifies(names[i], #[trigger] kinds[i]),
    ensures
        spec_apply_filters(data, kinds) == spec_apply_names(data, names),
        spec_terminal(kinds) == spec_terminal_names(names),
    decreases kinds.len(),
{
    reveal_strlit("FlateDecode");
    reveal_strlit("DCTDecode");
    assert("FlateDecode"@.len() == 11 && "DCTDecode"@.len() == 9);
    if kinds.len() > 0 {
        assert(classifies(names[0], kinds[0]));
        let last: int = kinds.len() - 1;
        assert(classifies(names[last], kinds[last]));
        let kt = kinds.skip(1);
        let nt = names.skip(1);
        assert forall|i: int| 0 <= i < nt.len() implies classifies(nt[i], #[trigger] kt[i]) by {
            assert(kt[i] == kinds[i + 1]);
            assert(nt[i] == names[i + 1]);
        }
        if names[0] == "FlateDecode"@ {
            match inflate_of(data) {
                Some(out) => {
                    lemma_classified_chain(out, kt, nt);
                },
                None => {},
            }
        } else if names[0] == "DCTDecode"@ {
            lemma_classified_chain(data, kt, nt);
        }
    }
}

/// The last filter alone decides the terminal state: whatever stands
/// earlier in the chain, a chain ending in `DCTDecode` leaves an encoded
/// container, a chain ending in `FlateDecode` leaves a raw sample grid,
/// and the empty chain leaves a raw sample grid.
pub proof fn lemma_last_filter_wins(prefix: Seq<FilterKind>)
    ensures
        spec_terminal(prefix.push(FilterKind::DCTDecode)) == TerminalState::EncodedContainer,
        spec_terminal(prefix.push(FilterKind::FlateDecode)) == TerminalState::RawSamples,
        spec_terminal(Seq::<FilterKind>::empty()) == TerminalState::RawSamples,
{
}

/// A chain that names an unhandled filter anywhere never yields a buffer:
/// whenever the run comes to `Applied`, no link of the chain was
/// unsupported.
pub proof fn lemma_no_buffer_past_unknown(data: Seq<u8>, filters: Seq<FilterKind>)
    ensures
        (spec_apply_filters(data, filters) matches FilterOutcome::Applied(_)) ==> forall|i: int|
            0 <= i < filters.len() ==> !(#[trigger] filters[i] matches FilterKind::Unsupported(_)),
    decreases filters.len(),
{
    if filters.len() > 0 {
        match filters[0] {
            FilterKind::FlateDecode => {
                match inflate_of(data) {
                    Some(out) => {
                        lemma_no_buffer_past_unknown(out, filters.skip(1));
                    },
                    None => {},
                }
            },
            FilterKind::DCTDecode => {
                lemma_no_buffer_past_unknown(data, filters.skip(1));
            },
            FilterKind::Unsupported(_) => {},
        }
        if spec_apply_filters(data, filters) matches FilterOutcome::Applied(_) {
            assert forall|i: int| 0 <= i < filters.len() implies !(#[trigger] filters[i] matches
                FilterKind::Unsupported(_)) by {
                if i > 0 {
                    assert(filters[i] == filters.skip(1)[i - 1]);
                }
            }
        }
    }
}

} // verus!
