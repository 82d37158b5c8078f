use vstd::prelude::*;
use vstd::utf8::{decode_utf8, valid_utf8, encode_utf8_decode_utf8};
use vstd::string::StringSliceAdditionalSpecFns;

use crate::native::Runtime;

verus! {

/// The text that a view holds: absent for a null view or for bytes that are not UTF-8.
pub open spec fn text_of(v: Option<Seq<u8>>) -> Option<Seq<char>> {
    match v {
        Some(b) => if valid_utf8(b) { Some(decode_utf8(b)) } else { None },
        None => None,
    }
}

/// Relies on std's `str::from_utf8`: it succeeds exactly on valid UTF-8, and the text it
/// gives back is made of the same bytes.
#[verifier::external_body]
fn utf8_str<'a>(b: &'a [u8]) -> (r: Option<&'a str>)
    ensures
        r is Some <==> valid_utf8(b@),
        r matches Some(t) ==> t.spec_bytes() == b@,
{
    std::str::from_utf8(b).ok()
}

/// A borrowed view of bytes that someone else owns: an address and a length. A null
/// address means that no data is there, which differs from a present view of length
/// zero. Its length field is that of the bytes where the address is not null.
pub struct FLSlice<'a> {
    buf: Option<&'a [u8]>,
    size: u64,
}

impl<'a> View for FLSlice<'a> {
    type V = Option<Seq<u8>>;

    closed spec fn view(&self) -> Option<Seq<u8>> {
        match self.buf {
            Some(b) => Some(b@),
            None => None,
        }
    }
}

/// A view of the bytes of `s`.
pub fn as_slice<'a>(s: &'a str) -> (r: FLSlice<'a>)
    ensures
        r@ == Some(s.spec_bytes()),
        r.len() == s.spec_bytes().len(),
{
    let b = s.as_bytes();
    FLSlice { buf: Some(b), size: b.len() as u64 }
}

/// A view of `s`.
pub fn bytes_as_slice<'a>(s: &'a [u8]) -> (r: FLSlice<'a>)
    ensures
        r@ == Some(s@),
        r.len() == s@.len(),
{
    FLSlice { buf: Some(s), size: s.len() as u64 }
}

impl<'a> FLSlice<'a> {
    /// The length field.
    pub closed spec fn len(&self) -> nat {
        self.size as nat
    }

    /// The null view, with the given length field.
    pub fn null(size: u64) -> (r: FLSlice<'a>)
        ensures
            r@ is None,
            r.len() == size,
    {
        FLSlice { buf: None, size }
    }

    /// The length field, whether or not the address is null.
    pub fn size(&self) -> (r: u64)
        ensures
            r == self.len(),
    {
        self.size
    }

    /// False exactly when the address is null.
    pub fn is_present(&self) -> (r: bool)
        ensures
            r == self@ is Some,
    {
        self.buf.is_some()
    }

    /// The bytes viewed, or `None` for a null view.
    pub fn as_byte_array(&self) -> (r: Option<&'a [u8]>)
        ensures
            r is Some <==> self@ is Some,
            r matches Some(b) ==> self@ == Some(b@),
    {
        self.buf
    }

    /// The bytes viewed as text, or `None` for a null view or bytes that are not UTF-8.
    pub fn as_str(&self) -> (r: Option<&'a str>)
        ensures
            r is Some <==> text_of(self@) is Some,
            r matches Some(t) ==> text_of(self@) == Some(t@),
    {
        match self.as_byte_array() {
            None => None,
            Some(b) => {
                let r = utf8_str(b);
                proof {
                    if let Some(t) = r {
                        encode_utf8_decode_utf8(t@);
                    }
                }
                r
            },
        }
    }

    /// A copy of the text viewed, or `None` where `as_str` gives `None`.
    pub fn to_string(&self) -> (r: Option<String>)
        ensures
            r is Some <==> text_of(self@) is Some,
            r matches Some(t) ==> text_of(self@) == Some(t@),
    {
        match self.as_str() {
            None => None,
            Some(t) => Some(t.to_owned()),
        }
    }

    /// A copy of the bytes viewed, or `None` for a null view.
    pub fn to_vec(&self) -> (r: Option<Vec<u8>>)
        ensures
            r is Some <==> self@ is Some,
            r matches Some(v) ==> self@ == Some(v@),
    {
        match self.as_byte_array() {
            None => None,
            Some(b) => Some(vstd::slice::slice_to_vec(b)),
        }
    }

    /// `f` applied to this view, or `None` for a null view.
    pub fn map<F, T>(&self, f: F) -> (r: Option<T>)
        where
            F: Fn(&FLSlice<'a>) -> T,
        requires
            self@ is Some ==> f.requires((self,)),
        ensures
            r is Some <==> self@ is Some,
            r matches Some(x) ==> f.ensures((self,), x),
    {
        if !self.is_present() {
            None
        } else {
            Some(f(self))
        }
    }
}

/// `!view` is true exactly for a null view.
impl<'a, 'b> std::ops::Not for &'b FLSlice<'a> {
    type Output = bool;

    fn not(self) -> bool {
        !self.is_present()
    }
}

impl<'a, 'b> vstd::std_specs::ops::NotSpecImpl for &'b FLSlice<'a> {
    open spec fn obeys_not_spec() -> bool {
        true
    }

    open spec fn not_req(self) -> bool {
        true
    }

    open spec fn not_spec(self) -> bool {
        self@ is None
    }
}

/// A byte buffer that the native layer handed over to its caller, who must release it
/// exactly once. `id` names it in the native buffer table; a null result holds no bytes.
pub struct FLSliceResult {
    buf: Option<Vec<u8>>,
    id: usize,
}

impl View for FLSliceResult {
    type V = Option<Seq<u8>>;

    closed spec fn view(&self) -> Option<Seq<u8>> {
        match self.buf {
            Some(b) => Some(b@),
            None => None,
        }
    }
}

impl FLSliceResult {
    /// Its entry in the native buffer table.
    pub closed spec fn id(&self) -> nat {
        self.id as nat
    }

    /// The native layer hands `content` over as an owned buffer, not yet released.
    pub fn new(rt: &mut Runtime, content: Option<Vec<u8>>) -> (r: FLSliceResult)
        requires
            old(rt).wf(),
        ensures
            final(rt).wf(),
            r@ == (match content { Some(v) => Some(v@), None => None }),
            r.id() == old(rt)@.buffers.len(),
            final(rt)@.buffers == old(rt)@.buffers.push(0),
            final(rt)@.objects == old(rt)@.objects,
            final(rt)@.listeners == old(rt)@.listeners,
    {
        let id = rt.open_buffer();
        FLSliceResult { buf: content, id }
    }

    /// The id of its entry in the native buffer table.
    pub fn buffer_id(&self) -> (r: usize)
        ensures
            r == self.id(),
    {
        self.id
    }

    /// A borrowed view of the same bytes; ownership stays here.
    pub fn as_slice(&self) -> (r: FLSlice<'_>)
        ensures
            r@ == self@,
    {
        match &self.buf {
            Some(v) => FLSlice { buf: Some(v.as_slice()), size: v.len() as u64 },
            None => FLSlice { buf: None, size: 0 },
        }
    }

    /// Performs the one release that the buffer is owed.
    pub fn release(self, rt: &mut Runtime)
        requires
            old(rt).wf(),
            self.id() < old(rt)@.buffers.len(),
            old(rt)@.buffers[self.id() as int] == 0,
        ensures
            final(rt).wf(),
            final(rt)@.buffers == old(rt)@.buffers.update(self.id() as int, 1),
            final(rt)@.objects == old(rt)@.objects,
            final(rt)@.listeners == old(rt)@.listeners,
    {
        rt.release_buffer(self.id);
    }

    /// Copies the text out, then releases the buffer.
    pub fn to_string(self, rt: &mut Runtime) -> (r: Option<String>)
        requires
            old(rt).wf(),
            self.id() < old(rt)@.buffers.len(),
            old(rt)@.buffers[self.id() as int] == 0,
        ensures
            final(rt).wf(),
            r is Some <==> text_of(self@) is Some,
            r matches Some(t) ==> text_of(self@) == Some(t@),
            final(rt)@.buffers == old(rt)@.buffers.update(self.id() as int, 1),
            final(rt)@.objects == old(rt)@.objects,
            final(rt)@.listeners == old(rt)@.listeners,
    {
        let s = self.as_slice().to_string();
        self.release(rt);
        s
    }

    /// Copies the bytes out, then releases the buffer.
    pub fn to_vec(self, rt: &mut Runtime) -> (r: Option<Vec<u8>>)
        requires
            old(rt).wf(),
            self.id() < old(rt)@.buffers.len(),
            old(rt)@.buffers[self.id() as int] == 0,
        ensures
            final(rt).wf(),
            r is Some <==> self@ is Some,
            r matches Some(v) ==> self@ == Some(v@),
            final(rt)@.buffers == old(rt)@.buffers.update(self.id() as int, 1),
            final(rt)@.objects == old(rt)@.objects,
            final(rt)@.listeners == old(rt)@.listeners,
    {
        let v = self.as_slice().to_vec();
        self.release(rt);
        v
    }
}

/// Length of the C string at the start of `b`: the bytes before its first NUL, or all of
/// them where there is none.
pub open spec fn c_len(b: Seq<u8>) -> nat
    decreases b.len(),
{
    if b.len() == 0 || b[0] == 0 {
        0
    } else {
        1 + c_len(b.drop_first())
    }
}

proof fn lemma_c_len(b: Seq<u8>, n: int)
    requires
        0 <= n <= b.len(),
        forall|j: int| 0 <= j < n ==> b[j] != 0,
        n == b.len() || b[n] == 0,
    ensures
        c_len(b) == n,
    decreases b.len(),
{
    if b.len() > 0 && b[0] != 0 {
        lemma_c_len(b.drop_first(), n - 1);
    }
}

/// What `String::from_utf8_lossy` makes of some bytes.
pub uninterp spec fn lossy_utf8(b: Seq<u8>) -> Seq<char>;

/// Relies on std's `String::from_utf8_lossy`: valid UTF-8 is decoded as it stands, and
/// anything else is decoded with replacement characters.
#[verifier::external_body]
fn utf8_lossy(b: &[u8]) -> (r: String)
    ensures
        r@ == lossy_utf8(b@),
        valid_utf8(b@) ==> r@ == decode_utf8(b@),
{
    String::from_utf8_lossy(b).into_owned()
}

/// The text of the NUL-terminated string at the start of `cstr`, with any byte sequence
/// that is not UTF-8 replaced. Where `cstr` holds no NUL, all of it is taken.
pub fn to_str(cstr: &[u8]) -> (r: String)
    ensures
        r@ == lossy_utf8(cstr@.subrange(0, c_len(cstr@) as int)),
        valid_utf8(cstr@.subrange(0, c_len(cstr@) as int)) ==> r@ == decode_utf8(
            cstr@.subrange(0, c_len(cstr@) as int),
        ),
{
    let mut n: usize = 0;
    while n < cstr.len() && cstr[n] != 0
        invariant
            n <= cstr@.len(),
            forall|j: int| 0 <= j < n ==> cstr@[j] != 0,
        decreases cstr@.len() - n,
    {
        n = n + 1;
    }
    proof {
        lemma_c_len(cstr@, n as int);
    }
    let head = vstd::slice::slice_subrange(cstr, 0, n);
    utf8_lossy(head)
}

/// An owned copy of the text of the NUL-terminated string at the start of `cstr`.
pub fn to_string(cstr: &[u8]) -> (r: String)
    ensures
        r@ == lossy_utf8(cstr@.subrange(0, c_len(cstr@) as int)),
        valid_utf8(cstr@.subrange(0, c_len(cstr@) as int)) ==> r@ == decode_utf8(
            cstr@.subrange(0, c_len(cstr@) as int),
        ),
{
    to_str(cstr)
}

/// Reading back the text behind a view of `s` gives `s`.
pub proof fn lemma_text_round_trip(s: &str)
    ensures
        text_of(Some(s.spec_bytes())) == Some(s@),
{
    encode_utf8_decode_utf8(s@);
    vstd::utf8::encode_utf8_valid_utf8(s@);
}

/// A null view holds neither bytes nor text, whatever its length field.
pub proof fn lemma_null_is_absent(v: FLSlice)
    requires
        v@ is None,
    ensures
        text_of(v@) is None,
{
}

/// Consuming an owned result releases it once: its entry goes from zero releases to one,
/// and no other buffer is touched.
pub proof fn lemma_consume_releases_once(buffers: Seq<u64>, id: int)
    requires
        0 <= id < buffers.len(),
        buffers[id] == 0,
    ensures
        buffers.update(id, 1)[id] == 1,
        forall|j: int| 0 <= j < buffers.len() && j != id ==> buffers.update(id, 1)[j] == buffers[j],
{
}

} // verus!
