//! Text crossing the native boundary: NUL-terminated byte strings handed to
//! native calls, and native text read back into owned strings.
use vstd::prelude::*;
use vstd::string::StringSliceAdditionalSpecFns;
use vstd::utf8::{decode_utf8, valid_utf8};

verus! {

/// What `String::from_utf8_lossy` makes of a byte sequence.
pub uninterp spec fn utf8_lossy_of(b: Seq<u8>) -> Seq<char>;

/// Relies on `String::from_utf8_lossy`: the result depends on the bytes alone,
/// and is their plain decoding where they are valid UTF-8.
#[verifier::external_body]
fn utf8_lossy(b: &[u8]) -> (r: String)
    ensures
        r@ == utf8_lossy_of(b@),
        valid_utf8(b@) ==> r@ == decode_utf8(b@),
{
    String::from_utf8_lossy(b).into_owned()
}

/// Whether the bytes can stand in a C string: none of them is NUL.
pub open spec fn c_compatible(b: Seq<u8>) -> bool {
    forall|i: int| 0 <= i < b.len() ==> b[i] != 0
}

/// The C string that holds `b`: the bytes followed by a NUL terminator.
pub open spec fn c_string_of(b: Seq<u8>) -> Seq<u8> {
    b.push(0)
}

/// Where a native C string in `b` ends: the first NUL at or after `i`, or the
/// end of `b` where there is none.
pub open spec fn nul_from(b: Seq<u8>, i: int) -> int
    decreases b.len() - i,
{
    if i >= b.len() {
        b.len() as int
    } else if b[i] == 0 {
        i
    } else {
        nul_from(b, i + 1)
    }
}

/// The text of the native C string at the start of `b`.
pub open spec fn c_text_of(b: Seq<u8>) -> Seq<u8> {
    b.take(nul_from(b, 0))
}

/// Whether `s` can be marshaled as a C string: it holds no NUL character.
pub fn is_c_compatible(s: &str) -> (r: bool)
    ensures
        r == c_compatible(s.spec_bytes()),
{
    let b = s.as_bytes();
    let mut i: usize = 0;
    while i < b.len()
        invariant
            0 <= i <= b@.len(),
            b@ == s.spec_bytes(),
            forall|j: int| 0 <= j < i ==> b@[j] != 0,
        decreases b@.len() - i,
    {
        if b[i] == 0 {
            return false;
        }
        i = i + 1;
    }
    true
}

/// Marshals `s` as an owned C string.
pub fn c_string(s: &str) -> (r: Vec<u8>)
    requires
        c_compatible(s.spec_bytes()),
    ensures
        r@ == c_string_of(s.spec_bytes()),
{
    let b = s.as_bytes();
    let mut v: Vec<u8> = Vec::new();
    let mut i: usize = 0;
    while i < b.len()
        invariant
            0 <= i <= b@.len(),
            b@ == s.spec_bytes(),
            v@ == b@.take(i as int),
        decreases b@.len() - i,
    {
        v.push(b[i]);
        i = i + 1;
        assert(v@ =~= b@.take(i as int));
    }
    assert(b@.take(i as int) =~= b@);
    v.push(0);
    v
}

/// The length of the native C string at the start of `b`: the position of its
/// first NUL, or the whole buffer where it holds none.
pub fn c_str_len(b: &[u8]) -> (k: usize)
    ensures
        k == nul_from(b@, 0),
        k <= b@.len(),
        forall|j: int| 0 <= j < k ==> b@[j] != 0,
        k < b@.len() ==> b@[k as int] == 0,
{
    let mut i: usize = 0;
    while i < b.len()
        invariant
            0 <= i <= b@.len(),
            nul_from(b@, 0) == nul_from(b@, i as int),
            forall|j: int| 0 <= j < i ==> b@[j] != 0,
        decreases b@.len() - i,
    {
        if b[i] == 0 {
            return i;
        }
        i = i + 1;
    }
    i
}

/// Reads the native C string at the start of `b` into an owned string,
/// replacing what is not UTF-8 as `String::from_utf8_lossy` does.
pub fn native_text(b: &[u8]) -> (r: String)
    ensures
        r@ == utf8_lossy_of(c_text_of(b@)),
{
    let k = c_str_len(b);
    let (head, _) = b.split_at(k);
    assert(head@ =~= c_text_of(b@));
    utf8_lossy(head)
}

/// Reads a whole native byte buffer into an owned string, replacing what is
/// not UTF-8 as `String::from_utf8_lossy` does.
pub fn buffer_text(b: &[u8]) -> (r: String)
    ensures
        r@ == utf8_lossy_of(b@),
        valid_utf8(b@) ==> r@ == decode_utf8(b@),
{
    utf8_lossy(b)
}

/// An owned list of C strings for a native call that takes an array of
/// strings. Each string is owned by the list alone, and is released once, when
/// the list is dropped.
pub struct SteamParamStringArray {
    strings: Vec<Vec<u8>>,
}

impl View for SteamParamStringArray {
    type V = Seq<Seq<u8>>;

    closed spec fn view(&self) -> Seq<Seq<u8>> {
        self.strings@.map_values(|v: Vec<u8>| v@)
    }
}

/// The arguments that describe a `SteamParamStringArray` to a native call.
pub struct SteamParamStringArrayRaw<'a> {
    pub num_strings: i32,
    pub strings: &'a [Vec<u8>],
}

impl SteamParamStringArray {
    /// Marshals each of `vec` as a C string of its own. A string that holds a
    /// NUL cannot be marshaled: that is a defect of the caller, ruled out here.
    pub fn new(vec: &[&str]) -> (r: SteamParamStringArray)
        requires
            forall|i: int| 0 <= i < vec@.len() ==> c_compatible(#[trigger] vec@[i].spec_bytes()),
        ensures
            r@.len() == vec@.len(),
            forall|i: int| 0 <= i < vec@.len() ==> #[trigger] r@[i] == c_string_of(vec@[i].spec_bytes()),
    {
        let mut strings: Vec<Vec<u8>> = Vec::new();
        let mut i: usize = 0;
        while i < vec.len()
            invariant
                0 <= i <= vec@.len(),
                strings@.len() == i,
                forall|j: int| 0 <= j < vec@.len() ==> c_compatible(#[trigger] vec@[j].spec_bytes()),
                forall|j: int| 0 <= j < i ==> #[trigger] strings@[j]@ == c_string_of(vec@[j].spec_bytes()),
            decreases vec@.len() - i,
        {
            let c = c_string(vec[i]);
            strings.push(c);
            i = i + 1;
        }
        SteamParamStringArray { strings }
    }

    /// The number of strings.
    pub fn len(&self) -> (r: usize)
        ensures
            r == self@.len(),
    {
        self.strings.len()
    }

    /// The C string at `i`, NUL terminator included.
    pub fn get(&self, i: usize) -> (r: &[u8])
        requires
            i < self@.len(),
        ensures
            r@ == self@[i as int],
    {
        self.strings[i].as_slice()
    }

    /// The count and the strings, as a native call takes them.
    pub fn as_raw(&self) -> (r: SteamParamStringArrayRaw<'_>)
        requires
            self@.len() <= i32::MAX,
        ensures
            r.num_strings == self@.len(),
            r.strings@.map_values(|v: Vec<u8>| v@) == self@,
    {
        SteamParamStringArrayRaw { num_strings: self.strings.len() as i32, strings: self.strings.as_slice() }
    }
}

} // verus!
