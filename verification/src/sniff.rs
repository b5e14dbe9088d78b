//! Member sniffer: tells transcodable audio from opaque data by the first
//! bytes of a stream.

use vstd::prelude::*;

verus! {

/// Number of leading bytes the sniffer looks at.
pub const SIGNATURE_LEN: usize = 4;

/// The capture pattern that opens every Ogg page: the ASCII letters `OggS`.
pub open spec fn ogg_signature() -> Seq<u8> {
    seq![0x4Fu8, 0x67u8, 0x67u8, 0x53u8]
}

/// Whether `prefix` starts with the Ogg capture pattern. A prefix shorter than
/// the signature never matches.
pub open spec fn has_audio_signature(prefix: Seq<u8>) -> bool {
    prefix.len() >= 4 && prefix.subrange(0, 4) == ogg_signature()
}

/// Classifies the leading bytes of a file. `prefix` holds whatever could be
/// read from offset 0 (more than four bytes are fine, fewer mean a short or
/// unreadable file, which is simply not eligible).
pub fn is_audio(prefix: &[u8]) -> (eligible: bool)
    ensures
        eligible == has_audio_signature(prefix@),
{
    if prefix.len() < SIGNATURE_LEN {
        return false;
    }
    let matches = prefix[0] == 0x4F && prefix[1] == 0x67 && prefix[2] == 0x67 && prefix[3] == 0x53;
    proof {
        let head = prefix@.subrange(0, 4);
        if matches {
            assert(head =~= ogg_signature());
        } else {
            assert(head[0] == prefix@[0] && head[1] == prefix@[1] && head[2] == prefix@[2]
                && head[3] == prefix@[3]);
        }
    }
    matches
}

} // verus!
