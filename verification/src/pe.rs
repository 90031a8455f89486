//! Portable Executable code identifiers.
//!
//! A PE file's code identifier — the COFF header's timestamp followed
//! by the optional header's image size — names the exact binary on a
//! symbol server.  Both fields sit at fixed offsets inside the headers,
//! so the identifier is read straight off the file's bytes; the textual
//! form is the timestamp as eight hex digits followed by the image size
//! in hex.

use crate::version::spec_u32_from_le;
use vstd::prelude::*;

verus! {

/// The code identifier of a PE binary.  Together with the file name it
/// locates the binary on a symbol server; it is distinct from the debug
/// identifier of the matching symbol file.
#[derive(Clone, Copy, Debug, PartialEq, Eq, Hash, Structural)]
pub struct PeCodeId {
    pub timestamp: u32,
    pub image_size: u32,
}

/// Why a byte buffer holds no readable code identifier.
#[derive(Clone, Copy, Debug, PartialEq, Eq, Structural)]
pub enum PeParseError {
    /// Shorter than a DOS header.
    TooSmall,
    /// The DOS magic `MZ` is missing.
    NotMz,
    /// The DOS header points past the end of the buffer.
    Truncated,
    /// The `PE\0\0` signature is missing at the indicated offset.
    BadSignature,
    /// The optional header is neither 32-bit nor 64-bit PE.
    BadOptionalMagic,
}

/// Why a string holds no code identifier.
#[derive(Clone, Copy, Debug, PartialEq, Eq, Structural)]
pub enum CodeIdParseError {
    /// A code identifier has nine to sixteen hex digits.
    InvalidLength,
    /// The first eight characters must be hex digits (the timestamp).
    InvalidTimestamp,
    /// The remaining characters must be hex digits (the image size).
    InvalidImageSize,
}

/// Little-endian 32-bit value at offset `i`.
pub open spec fn spec_u32_le_at(d: Seq<u8>, i: int) -> u32 {
    spec_u32_from_le(d[i], d[i + 1], d[i + 2], d[i + 3])
}

/// The code identifier read from a PE file's bytes: `MZ` magic, the
/// header offset at 0x3C, the `PE\0\0` signature, the COFF timestamp
/// eight bytes in, a 32- or 64-bit optional-header magic, and the image
/// size at offset 56 of the optional header (the same place in both
/// optional-header layouts).
pub open spec fn spec_pe_parse(d: Seq<u8>) -> Result<PeCodeId, PeParseError> {
    if d.len() < 0x40 {
        Err(PeParseError::TooSmall)
    } else if !(d[0] == 0x4du8 && d[1] == 0x5au8) {
        Err(PeParseError::NotMz)
    } else {
        let off = spec_u32_le_at(d, 0x3c) as int;
        if off + 84 > d.len() {
            Err(PeParseError::Truncated)
        } else if !(d[off] == 0x50u8 && d[off + 1] == 0x45u8 && d[off + 2] == 0u8 && d[off + 3]
            == 0u8) {
            Err(PeParseError::BadSignature)
        } else {
            let magic = d[off + 24] + d[off + 25] * 0x100;
            if magic != 0x10b && magic != 0x20b {
                Err(PeParseError::BadOptionalMagic)
            } else {
                Ok(
                    PeCodeId {
                        timestamp: spec_u32_le_at(d, off + 8),
                        image_size: spec_u32_le_at(d, off + 80),
                    },
                )
            }
        }
    }
}

fn read_u32_le(d: &Vec<u8>, i: usize) -> (r: u32)
    requires
        i + 4 <= d.len(),
    ensures
        r == spec_u32_le_at(d@, i as int),
{
    d[i] as u32 + d[i + 1] as u32 * 0x100 + d[i + 2] as u32 * 0x1_0000 + d[i + 3] as u32
        * 0x100_0000
}

impl PeCodeId {
    /// Reads the code identifier out of a PE file's bytes.
    pub fn for_file_data(data: &Vec<u8>) -> (r: Result<PeCodeId, PeParseError>)
        ensures
            r == spec_pe_parse(data@),
    {
        if data.len() < 0x40 {
            return Err(PeParseError::TooSmall);
        }
        if !(data[0] == 0x4du8 && data[1] == 0x5au8) {
            return Err(PeParseError::NotMz);
        }
        let off_value = read_u32_le(data, 0x3c);
        let off = off_value as usize;
        if data.len() < 84 || off > data.len() - 84 {
            return Err(PeParseError::Truncated);
        }
        if !(data[off] == 0x50u8 && data[off + 1] == 0x45u8 && data[off + 2] == 0u8 && data[off
            + 3] == 0u8) {
            return Err(PeParseError::BadSignature);
        }
        let magic: u32 = data[off + 24] as u32 + data[off + 25] as u32 * 0x100;
        if magic != 0x10b && magic != 0x20b {
            return Err(PeParseError::BadOptionalMagic);
        }
        Ok(
            PeCodeId {
                timestamp: read_u32_le(data, off + 8),
                image_size: read_u32_le(data, off + 80),
            },
        )
    }
}

/// Hex digits, of either case.
pub open spec fn spec_is_hex_digit(c: char) -> bool {
    ('0' <= c && c <= '9') || ('a' <= c && c <= 'f') || ('A' <= c && c <= 'F')
}

pub open spec fn spec_hex_digit_value(c: char) -> nat {
    if '0' <= c && c <= '9' {
        ((c as int) - ('0' as int)) as nat
    } else if 'a' <= c && c <= 'f' {
        ((c as int) - ('a' as int) + 10) as nat
    } else if 'A' <= c && c <= 'F' {
        ((c as int) - ('A' as int) + 10) as nat
    } else {
        0
    }
}

pub open spec fn spec_all_hex_digits(s: Seq<char>) -> bool {
    forall|i: int| 0 <= i < s.len() ==> spec_is_hex_digit(#[trigger] s[i])
}

/// Value of a big-endian string of hex digits.
pub open spec fn spec_hex_value(s: Seq<char>) -> nat
    decreases s.len(),
{
    if s.len() == 0 {
        0
    } else {
        16 * spec_hex_value(s.drop_last()) + spec_hex_digit_value(s.last())
    }
}

pub open spec fn pow16(n: nat) -> nat
    decreases n,
{
    if n == 0 {
        1
    } else {
        16 * pow16((n - 1) as nat)
    }
}

pub proof fn lemma_pow16_mono(a: nat, b: nat)
    requires
        a <= b,
    ensures
        pow16(a) <= pow16(b),
    decreases b,
{
    if a < b {
        lemma_pow16_mono(a, (b - 1) as nat);
    }
}

pub proof fn lemma_hex_value_bound(s: Seq<char>)
    ensures
        spec_hex_value(s) < pow16(s.len()),
    decreases s.len(),
{
    if s.len() > 0 {
        lemma_hex_value_bound(s.drop_last());
        assert(spec_hex_digit_value(s.last()) <= 15);
    }
}

/// The parse of a textual code identifier: nine to sixteen hex digits,
/// the first eight giving the timestamp, the rest the image size.
pub open spec fn spec_code_id_from_str(s: Seq<char>) -> Result<PeCodeId, CodeIdParseError> {
    if s.len() < 9 || s.len() > 16 {
        Err(CodeIdParseError::InvalidLength)
    } else if !spec_all_hex_digits(s.take(8)) {
        Err(CodeIdParseError::InvalidTimestamp)
    } else if !spec_all_hex_digits(s.skip(8)) {
        Err(CodeIdParseError::InvalidImageSize)
    } else {
        Ok(
            PeCodeId {
                timestamp: spec_hex_value(s.take(8)) as u32,
                image_size: spec_hex_value(s.skip(8)) as u32,
            },
        )
    }
}

/// Digit value of `c`, or `None` when `c` is no hex digit.
fn hex_digit_value(c: char) -> (r: Option<u32>)
    ensures
        r is Some <==> spec_is_hex_digit(c),
        r matches Some(v) ==> v == spec_hex_digit_value(c) && v < 16,
{
    if '0' <= c && c <= '9' {
        Some(c as u32 - '0' as u32)
    } else if 'a' <= c && c <= 'f' {
        Some(c as u32 - 'a' as u32 + 10)
    } else if 'A' <= c && c <= 'F' {
        Some(c as u32 - 'A' as u32 + 10)
    } else {
        None
    }
}

/// Parses the hex digits of `s` between `from` and `to` into a value,
/// or reports the absence of a hex digit there.
fn parse_hex_range(s: &str, from: usize, to: usize) -> (r: Option<u32>)
    requires
        from <= to <= s@.len(),
        to - from <= 8,
    ensures
        r is Some <==> spec_all_hex_digits(s@.subrange(from as int, to as int)),
        r matches Some(v) ==> v == spec_hex_value(s@.subrange(from as int, to as int)),
{
    let mut acc: u32 = 0;
    let mut i: usize = from;
    proof {
        assert(s@.subrange(from as int, from as int) =~= Seq::<char>::empty());
    }
    while i < to
        invariant
            from <= i <= to <= s@.len(),
            to - from <= 8,
            spec_all_hex_digits(s@.subrange(from as int, i as int)),
            acc == spec_hex_value(s@.subrange(from as int, i as int)),
            acc < pow16((i - from) as nat),
        decreases to - i,
    {
        let c = s.get_char(i);
        proof {
            assert(pow16(7) == 0x1000_0000) by {
                reveal_with_fuel(pow16, 8);
            }
            lemma_pow16_mono((i - from) as nat, 7);
        }
        match hex_digit_value(c) {
            Some(v) => {
                proof {
                    let prev = s@.subrange(from as int, i as int);
                    let cur = s@.subrange(from as int, i + 1 as int);
                    assert(cur.drop_last() =~= prev);
                    assert(cur.last() == s@[i as int]);
                }
                acc = acc * 16 + v;
                i = i + 1;
            },
            None => {
                proof {
                    assert(s@.subrange(from as int, to as int)[i - from] == s@[i as int]);
                    assert(!spec_is_hex_digit(s@.subrange(from as int, to as int)[i - from]));
                }
                return None;
            },
        }
    }
    Some(acc)
}

impl PeCodeId {
    /// Parses the textual form of a code identifier.
    pub fn from_str(s: &str) -> (r: Result<PeCodeId, CodeIdParseError>)
        ensures
            r == spec_code_id_from_str(s@),
    {
        let n = s.unicode_len();
        if n < 9 || n > 16 {
            return Err(CodeIdParseError::InvalidLength);
        }
        proof {
            assert(s@.take(8) =~= s@.subrange(0, 8));
            assert(s@.skip(8) =~= s@.subrange(8, s@.len() as int));
        }
        let timestamp = match parse_hex_range(s, 0, 8) {
            Some(v) => v,
            None => {
                return Err(CodeIdParseError::InvalidTimestamp);
            },
        };
        let image_size = match parse_hex_range(s, 8, n) {
            Some(v) => v,
            None => {
                return Err(CodeIdParseError::InvalidImageSize);
            },
        };
        proof {
            lemma_hex_value_bound(s@.take(8));
            lemma_hex_value_bound(s@.skip(8));
            assert(pow16(8) == 0x1_0000_0000) by {
                reveal_with_fuel(pow16, 9);
            }
        }
        Ok(PeCodeId { timestamp, image_size })
    }
}

// ---------------------------------------------------------------------
// A PE file on disk: its path, and the path of its symbol file once
// one has been fetched.
// ---------------------------------------------------------------------

/// Index at which the file name starts in a path: just after the last
/// path separator, or zero when there is none.
pub open spec fn spec_name_start(path: Seq<char>) -> int
    decreases path.len(),
{
    if path.len() == 0 {
        0
    } else if path.last() == '/' || path.last() == '\\' {
        path.len() as int
    } else {
        spec_name_start(path.drop_last())
    }
}

/// Index of the last dot in a file name, or -1 when there is none.
pub open spec fn spec_last_dot(name: Seq<char>) -> int
    decreases name.len(),
{
    if name.len() == 0 {
        -1
    } else if name.last() == '.' {
        name.len() - 1
    } else {
        spec_last_dot(name.drop_last())
    }
}

/// The file name of `path` without its extension: the part after the
/// last separator, cut at the last dot unless that dot leads the name
/// (a dotfile keeps its full name).  `None` when the path ends in a
/// separator or is empty.
pub open spec fn spec_file_stem(path: Seq<char>) -> Option<Seq<char>> {
    let start = spec_name_start(path);
    let name = path.skip(start);
    if name.len() == 0 {
        None
    } else {
        let dot = spec_last_dot(name);
        if dot <= 0 {
            Some(name)
        } else {
            Some(name.take(dot))
        }
    }
}

/// A PE binary on disk, named by its path, together with the matching
/// symbol file once one is known.  Reading the bytes and fetching the
/// symbol file happen outside this library; the paths and the header
/// logic live here.
pub struct PeFile {
    dll_path: String,
    pdb_path: Option<String>,
}

impl PeFile {
    pub closed spec fn spec_dll_path(&self) -> Seq<char> {
        self.dll_path@
    }

    pub closed spec fn spec_pdb_path(&self) -> Option<Seq<char>> {
        match self.pdb_path {
            Some(p) => Some(p@),
            None => None,
        }
    }

    pub fn new(dll_path: String) -> (r: PeFile)
        ensures
            r.spec_dll_path() == dll_path@,
            r.spec_pdb_path() is None,
    {
        PeFile { dll_path, pdb_path: None }
    }

    pub fn dll_path(&self) -> (r: &String)
        ensures
            r@ == self.spec_dll_path(),
    {
        &self.dll_path
    }

    /// Records where the symbol file for this binary was stored.
    pub fn set_pdb_path(&mut self, path: String)
        ensures
            final(self).spec_dll_path() == old(self).spec_dll_path(),
            final(self).spec_pdb_path() == Some(path@),
    {
        self.pdb_path = Some(path);
    }

    pub fn pdb_path(&self) -> (r: &Option<String>)
        ensures
            r is Some <==> self.spec_pdb_path() is Some,
            r matches Some(p) ==> Some(p@) == self.spec_pdb_path(),
    {
        &self.pdb_path
    }

    /// The file name of the binary without its extension, or `None`
    /// when the path names no file.
    pub fn file_stem(&self) -> (r: Option<String>)
        ensures
            r is Some <==> spec_file_stem(self.spec_dll_path()) is Some,
            r matches Some(stem) ==> Some(stem@) == spec_file_stem(self.spec_dll_path()),
    {
        let path = self.dll_path.as_str();
        let ghost p = self.dll_path@;
        let n = path.unicode_len();
        let mut start: usize = 0;
        let mut i: usize = 0;
        proof {
            assert(p.take(0) =~= Seq::<char>::empty());
        }
        while i < n
            invariant
                i <= n,
                n == p.len(),
                path@ == p,
                start <= i,
                start == spec_name_start(p.take(i as int)),
            decreases n - i,
        {
            let c = path.get_char(i);
            proof {
                assert(p.take(i + 1 as int).drop_last() =~= p.take(i as int));
                assert(p.take(i + 1 as int).last() == p[i as int]);
            }
            if c == '/' || c == '\\' {
                start = i + 1;
            }
            i = i + 1;
        }
        proof {
            assert(p.take(n as int) =~= p);
        }
        if start == n {
            return None;
        }
        let ghost name = p.skip(start as int);
        // Find the last dot of the file name; `dot_plus` holds its
        // index within the name plus one, or zero when none was seen.
        let mut dot_plus: usize = 0;
        let mut j: usize = start;
        proof {
            assert(p.subrange(start as int, start as int) =~= Seq::<char>::empty());
        }
        while j < n
            invariant
                start <= j <= n,
                n == p.len(),
                path@ == p,
                dot_plus == spec_last_dot(p.subrange(start as int, j as int)) + 1,
                dot_plus <= j - start,
            decreases n - j,
        {
            let c = path.get_char(j);
            proof {
                assert(p.subrange(start as int, j + 1 as int).drop_last() =~= p.subrange(
                    start as int,
                    j as int,
                ));
                assert(p.subrange(start as int, j + 1 as int).last() == p[j as int]);
            }
            if c == '.' {
                dot_plus = j - start + 1;
            }
            j = j + 1;
        }
        proof {
            assert(p.subrange(start as int, n as int) =~= name);
        }
        let stem_end: usize = if dot_plus <= 1 {
            n - start
        } else {
            dot_plus - 1
        };
        let stem = path.substring_char(start, start + stem_end).to_owned();
        proof {
            let dot = spec_last_dot(name);
            if dot <= 0 {
                assert(p.subrange(start as int, n as int) =~= name);
                assert(stem@ =~= name);
            } else {
                assert(p.subrange(start as int, start + stem_end) =~= name.take(dot as int));
            }
        }
        Some(stem)
    }

    /// The code identifier of the binary, read from its file bytes.
    pub fn pe_code_id(&self, file_data: &Vec<u8>) -> (r: Result<PeCodeId, PeParseError>)
        ensures
            r == spec_pe_parse(file_data@),
    {
        PeCodeId::for_file_data(file_data)
    }
}

} // verus!
