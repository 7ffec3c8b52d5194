use vstd::prelude::*;

use crate::types::ModelError;

verus! {

/// Number of leading bytes that identify a model file's format.
pub const MAGIC_LEN: usize = 4;

/// The GGUF signature, "GGUF".
pub open spec fn gguf_magic() -> Seq<u8> {
    seq![0x47u8, 0x47u8, 0x55u8, 0x46u8]
}

/// The legacy signatures "ggjt", "ggla" and "ggml".
pub open spec fn legacy_magics() -> Seq<Seq<u8>> {
    seq![
        seq![0x67u8, 0x67u8, 0x6au8, 0x74u8],
        seq![0x67u8, 0x67u8, 0x6cu8, 0x61u8],
        seq![0x67u8, 0x67u8, 0x6du8, 0x6cu8],
    ]
}

/// Whether four bytes are one of the known model signatures.
pub open spec fn is_known_magic(b: Seq<u8>) -> bool {
    b == gguf_magic() || legacy_magics().contains(b)
}

/// The leading bytes of a file that would be checked against the signatures.
pub open spec fn magic_of(header: Seq<u8>) -> Seq<u8> {
    header.subrange(0, MAGIC_LEN as int)
}

/// The leading bytes that a failed check reports: all of them when there are
/// fewer than four.
pub open spec fn seen_magic(header: Seq<u8>) -> Seq<u8> {
    if header.len() < MAGIC_LEN {
        header
    } else {
        magic_of(header)
    }
}

/// Whether a file whose leading bytes are `header` is accepted as a model.
pub open spec fn header_accepted(header: Seq<u8>) -> bool {
    header.len() >= MAGIC_LEN && is_known_magic(magic_of(header))
}

/// A copy of the leading bytes that a failed check reports.
pub fn leading_bytes(header: &[u8]) -> (r: Vec<u8>)
    ensures
        r@ == seen_magic(header@),
{
    let n: usize = if header.len() < MAGIC_LEN { header.len() } else { MAGIC_LEN };
    let mut r: Vec<u8> = Vec::new();
    let mut i: usize = 0;
    while i < n
        invariant
            n <= header@.len(),
            n == if header@.len() < MAGIC_LEN { header@.len() } else { MAGIC_LEN as nat },
            i <= n,
            r@ == header@.subrange(0, i as int),
        decreases n - i,
    {
        r.push(header[i]);
        i += 1;
        assert(r@ =~= header@.subrange(0, i as int));
    }
    assert(header@.len() < MAGIC_LEN ==> header@.subrange(0, n as int) =~= header@);
    r
}

fn same_bytes(h: &[u8], a: u8, b: u8, c: u8, d: u8) -> (r: bool)
    requires
        h@.len() >= MAGIC_LEN,
    ensures
        r == (magic_of(h@) == seq![a, b, c, d]),
{
    let r = h[0] == a && h[1] == b && h[2] == c && h[3] == d;
    proof {
        let m = magic_of(h@);
        let s = seq![a, b, c, d];
        if r {
            assert(m =~= s);
        } else {
            assert(m[0] != s[0] || m[1] != s[1] || m[2] != s[2] || m[3] != s[3]);
        }
    }
    r
}

/// Checks the leading bytes of a downloaded file against the known model
/// signatures: "GGUF", and the older "ggjt", "ggla" and "ggml".
///
/// `header` holds the bytes read from the start of the file, up to four.
/// Fewer than four bytes means the file could not be read that far, which is
/// a read error and never an acceptance.
pub fn validate_gguf_file(header: &[u8]) -> (r: Result<(), ModelError>)
    ensures
        r is Ok <==> header_accepted(header@),
        header@.len() < MAGIC_LEN ==> r matches Err(ModelError::Filesystem(_)),
        header@.len() >= MAGIC_LEN && !header_accepted(header@) ==> (r matches Err(
            ModelError::Validation(b),
        ) && b@ == magic_of(header@)),
{
    if header.len() < MAGIC_LEN {
        return Err(ModelError::Filesystem("file is shorter than a model signature".to_owned()));
    }
    let gguf = same_bytes(header, 0x47, 0x47, 0x55, 0x46);
    let ggjt = same_bytes(header, 0x67, 0x67, 0x6a, 0x74);
    let ggla = same_bytes(header, 0x67, 0x67, 0x6c, 0x61);
    let ggml = same_bytes(header, 0x67, 0x67, 0x6d, 0x6c);
    proof {
        let m = magic_of(header@);
        assert(legacy_magics()[0] == seq![0x67u8, 0x67u8, 0x6au8, 0x74u8]);
        assert(legacy_magics()[1] == seq![0x67u8, 0x67u8, 0x6cu8, 0x61u8]);
        assert(legacy_magics()[2] == seq![0x67u8, 0x67u8, 0x6du8, 0x6cu8]);
        if legacy_magics().contains(m) {
            let i = choose|i: int| 0 <= i < legacy_magics().len() && legacy_magics()[i] == m;
            assert(i == 0 || i == 1 || i == 2);
        }
        if ggjt {
            assert(legacy_magics()[0] == m);
        }
        if ggla {
            assert(legacy_magics()[1] == m);
        }
        if ggml {
            assert(legacy_magics()[2] == m);
        }
    }
    if gguf || ggjt || ggla || ggml {
        Ok(())
    } else {
        let mut seen: Vec<u8> = Vec::new();
        seen.push(header[0]);
        seen.push(header[1]);
        seen.push(header[2]);
        seen.push(header[3]);
        assert(seen@ =~= magic_of(header@));
        Err(ModelError::Validation(seen))
    }
}

} // verus!
