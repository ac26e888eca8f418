use vstd::prelude::*;

verus! {

/// Size of the image container header.
pub const IMG_HEADER_LEN: usize = 0x400;
/// Size of the placeholder signature.
pub const SIGNATURE_LEN: usize = 0x80;
/// Size of the placeholder certificate chain.
pub const CERTIFICATES_LEN: usize = 0x300;
/// Largest payload whose lengths fit the header's 32-bit fields: its data
/// length (payload, 1 to 16 bytes of padding, signature and certificates)
/// is then at most 0xFFFF_FFF0.
pub const MAX_PAYLOAD_LEN: usize = 0xFFFF_FC6F;
/// Format code "unencrypted and signed".
pub const IMG_FORMAT_SIGNED: u8 = 4;
/// Filler byte of the placeholder signature ('S').
pub const SIGNATURE_FILL: u8 = 0x53;
/// Filler byte of the placeholder certificate chain ('C').
pub const CERTIFICATE_FILL: u8 = 0x43;

/// The container magic "8740".
pub open spec fn img_magic() -> Seq<u8> {
    seq![0x38u8, 0x37u8, 0x34u8, 0x30u8]
}

/// The container version "2.0".
pub open spec fn img_version() -> Seq<u8> {
    seq![0x32u8, 0x2eu8, 0x30u8]
}

/// `n` copies of the byte `b`.
pub open spec fn fill(b: u8, n: nat) -> Seq<u8> {
    Seq::new(n, |_i: int| b)
}

/// The four little-endian bytes of `v` (taken modulo 2^32).
pub open spec fn le32(v: nat) -> Seq<u8> {
    seq![
        (v % 256) as u8,
        (v / 256 % 256) as u8,
        (v / 256 / 256 % 256) as u8,
        (v / 256 / 256 / 256 % 256) as u8,
    ]
}

/// The little-endian 32-bit number stored at `off` in `s`.
pub open spec fn read_le32(s: Seq<u8>, off: int) -> nat {
    s[off] as nat + s[off + 1] as nat * 256 + s[off + 2] as nat * 65536 + s[off + 3] as nat
        * 16777216
}

/// Zero bytes appended to a payload of `len` bytes: always 1 to 16, so a
/// payload whose length is a multiple of 16 still gets 16.
pub open spec fn alignment_padding(len: nat) -> nat {
    (16 - len % 16) as nat
}

/// Length of the body of a container around a payload of `len` bytes.
pub open spec fn body_length(len: nat) -> nat {
    len + alignment_padding(len)
}

/// The synthesized header for a payload of `len` bytes: magic, version,
/// format, entry point 0, body length, data length, certificate offset,
/// certificate length, then zero padding to the header size.
pub open spec fn img_header(len: nat) -> Seq<u8> {
    header_fields(len) + fill(0, 0x3E4)
}

/// The 28 meaningful bytes at the start of a synthesized header.
pub open spec fn header_fields(len: nat) -> Seq<u8> {
    let body = body_length(len);
    img_magic() + img_version() + seq![IMG_FORMAT_SIGNED] + le32(0) + le32(body) + le32(
        (body + SIGNATURE_LEN + CERTIFICATES_LEN) as nat,
    ) + le32((body + SIGNATURE_LEN) as nat) + le32(CERTIFICATES_LEN as nat)
}

/// Whether a payload already carries a container header.
pub open spec fn has_img_header(p: Seq<u8>) -> bool {
    p.len() >= IMG_HEADER_LEN && p.subrange(0, 4) == img_magic()
}

/// A payload wrapped in a fresh container: header, payload, alignment
/// padding, placeholder signature, placeholder certificates.
pub open spec fn with_img_header(p: Seq<u8>) -> Seq<u8> {
    img_header(p.len()) + (p + fill(0, alignment_padding(p.len())) + fill(
        SIGNATURE_FILL,
        SIGNATURE_LEN as nat,
    ) + fill(CERTIFICATE_FILL, CERTIFICATES_LEN as nat))
}

/// The bytes that are transferred for a payload: the payload itself when it
/// already carries a header, else the payload wrapped.
pub open spec fn prepared_image(p: Seq<u8>) -> Seq<u8> {
    if has_img_header(p) {
        p
    } else {
        with_img_header(p)
    }
}

/// Appends the little-endian bytes of `x`.
fn push_le32(v: &mut Vec<u8>, x: u32)
    ensures
        final(v)@ == old(v)@ + le32(x as nat),
{
    v.push((x % 256) as u8);
    v.push((x / 256 % 256) as u8);
    v.push((x / 256 / 256 % 256) as u8);
    v.push((x / 256 / 256 / 256 % 256) as u8);
    assert(final(v)@ =~= old(v)@ + le32(x as nat));
}

/// Appends `n` copies of `b`.
pub(crate) fn push_fill(v: &mut Vec<u8>, b: u8, n: usize)
    ensures
        final(v)@ == old(v)@ + fill(b, n as nat),
{
    let ghost start = v@;
    let mut i: usize = 0;
    while i < n
        invariant
            i <= n,
            v@ == start + fill(b, i as nat),
        decreases n - i,
    {
        v.push(b);
        i = i + 1;
        assert(v@ =~= start + fill(b, i as nat));
    }
}

/// Appends the bytes of `data`.
fn push_all(v: &mut Vec<u8>, data: &[u8])
    ensures
        final(v)@ == old(v)@ + data@,
{
    let ghost start = v@;
    let mut i: usize = 0;
    while i < data.len()
        invariant
            i <= data@.len(),
            v@ == start + data@.subrange(0, i as int),
        decreases data@.len() - i,
    {
        v.push(data[i]);
        i = i + 1;
        assert(v@ =~= start + data@.subrange(0, i as int));
    }
    assert(data@.subrange(0, data@.len() as int) =~= data@);
}

/// Wraps a payload in a fresh container (header, payload, padding,
/// placeholder signature and certificates).
pub fn add_img_header(buffer: &[u8]) -> (r: Vec<u8>)
    requires
        buffer@.len() <= MAX_PAYLOAD_LEN,
    ensures
        r@ == with_img_header(buffer@),
{
    let alignment_padding: usize = 0x10 - buffer.len() % 0x10;
    let body_len: u32 = (buffer.len() + alignment_padding) as u32;
    let mut img: Vec<u8> = Vec::new();
    img.push(0x38);
    img.push(0x37);
    img.push(0x34);
    img.push(0x30);
    img.push(0x32);
    img.push(0x2e);
    img.push(0x30);
    img.push(IMG_FORMAT_SIGNED);
    push_le32(&mut img, 0);
    push_le32(&mut img, body_len);
    push_le32(&mut img, body_len + SIGNATURE_LEN as u32 + CERTIFICATES_LEN as u32);
    push_le32(&mut img, body_len + SIGNATURE_LEN as u32);
    push_le32(&mut img, CERTIFICATES_LEN as u32);
    push_fill(&mut img, 0, 0x3E4);
    assert(img@ =~= img_header(buffer@.len()));
    push_all(&mut img, buffer);
    push_fill(&mut img, 0, alignment_padding);
    push_fill(&mut img, SIGNATURE_FILL, SIGNATURE_LEN);
    push_fill(&mut img, CERTIFICATE_FILL, CERTIFICATES_LEN);
    img
}

/// Whether a payload already carries a container header: it is at least
/// header-sized and begins with the magic.
pub fn is_wrapped(buffer: &[u8]) -> (r: bool)
    ensures
        r == has_img_header(buffer@),
{
    if buffer.len() < IMG_HEADER_LEN {
        return false;
    }
    let r = buffer[0] == 0x38 && buffer[1] == 0x37 && buffer[2] == 0x34 && buffer[3] == 0x30;
    assert(r == (buffer@.subrange(0, 4) =~= img_magic()));
    r
}

/// The bytes to transfer for a payload: unchanged when it already carries a
/// header, else wrapped in a fresh container.
pub fn prepare_image(buffer: &[u8]) -> (r: Vec<u8>)
    requires
        !has_img_header(buffer@) ==> buffer@.len() <= MAX_PAYLOAD_LEN,
    ensures
        r@ == prepared_image(buffer@),
        has_img_header(buffer@) ==> r@ == buffer@,
{
    if is_wrapped(buffer) {
        let mut v: Vec<u8> = Vec::new();
        push_all(&mut v, buffer);
        assert(v@ =~= buffer@);
        v
    } else {
        add_img_header(buffer)
    }
}

/// The four little-endian bytes of a 32-bit number read back as that number.
proof fn lemma_le32_read(v: nat)
    requires
        v < 0x1_0000_0000,
    ensures
        read_le32(le32(v), 0) == v,
{
    let q1 = v / 256;
    let q2 = q1 / 256;
    let q3 = q2 / 256;
    assert(v == q1 * 256 + v % 256);
    assert(q1 == q2 * 256 + q1 % 256);
    assert(q2 == q3 * 256 + q2 % 256);
    assert(q3 < 256);
    assert(q3 % 256 == q3);
    assert(v == v % 256 + (q1 % 256) * 256 + (q2 % 256) * 65536 + q3 * 16777216)
        by (nonlinear_arith)
        requires
            v == q1 * 256 + v % 256,
            q1 == q2 * 256 + q1 % 256,
            q2 == q3 * 256 + q2 % 256,
    ;
}

/// A payload that already carries a header is transferred unchanged.
pub proof fn lemma_prepared_identity(p: Seq<u8>)
    requires
        has_img_header(p),
    ensures
        prepared_image(p) == p,
{
}

/// A payload without a header grows by its alignment padding (1 to 16
/// bytes), the header, the signature and the certificates.
pub proof fn lemma_prepared_length(p: Seq<u8>)
    requires
        !has_img_header(p),
    ensures
        prepared_image(p).len() == p.len() + alignment_padding(p.len()) + IMG_HEADER_LEN
            + SIGNATURE_LEN + CERTIFICATES_LEN,
        alignment_padding(p.len()) == 16 - p.len() % 16,
        1 <= alignment_padding(p.len()) <= 16,
{
}

/// The length fields of every synthesized header agree: the data length is
/// the body length plus signature and certificates, the certificates start
/// after body and signature, and the body is the padded payload.
pub proof fn lemma_header_fields(p: Seq<u8>)
    requires
        p.len() <= MAX_PAYLOAD_LEN,
    ensures
        ({
            let h = with_img_header(p);
            &&& h.subrange(0, 4) == img_magic()
            &&& h[7] == IMG_FORMAT_SIGNED
            &&& read_le32(h, 12) == body_length(p.len())
            &&& read_le32(h, 16) == read_le32(h, 12) + SIGNATURE_LEN + CERTIFICATES_LEN
            &&& read_le32(h, 20) == read_le32(h, 12) + SIGNATURE_LEN
            &&& read_le32(h, 24) == CERTIFICATES_LEN
        }),
{
    let h = with_img_header(p);
    let body = body_length(p.len());
    let hf = header_fields(p.len());
    let hd = img_header(p.len());
    let t = h.subrange(0x400, h.len() as int);
    assert(h =~= hd + t);
    assert(hd =~= hf + fill(0, 0x3E4));
    let f0 = img_magic() + img_version() + seq![IMG_FORMAT_SIGNED] + le32(0);
    let f1 = f0 + le32(body);
    let f2 = f1 + le32(body + 0x380);
    let f3 = f2 + le32(body + 0x80);
    assert(hf == f3 + le32(0x300));
    lemma_le32_read(body);
    lemma_le32_read(body + 0x380);
    lemma_le32_read(body + 0x80);
    lemma_le32_read(0x300);
    lemma_read_le32_right(f0, le32(body), 12);
    lemma_read_le32_right(f1, le32(body + 0x380), 16);
    lemma_read_le32_right(f2, le32(body + 0x80), 20);
    lemma_read_le32_right(f3, le32(0x300), 24);
    lemma_read_le32_left(f1, le32(body + 0x380), 12);
    lemma_read_le32_left(f2, le32(body + 0x80), 12);
    lemma_read_le32_left(f2, le32(body + 0x80), 16);
    lemma_read_le32_left(f3, le32(0x300), 12);
    lemma_read_le32_left(f3, le32(0x300), 16);
    lemma_read_le32_left(f3, le32(0x300), 20);
    lemma_read_le32_left(hf, fill(0, 0x3E4), 12);
    lemma_read_le32_left(hf, fill(0, 0x3E4), 16);
    lemma_read_le32_left(hf, fill(0, 0x3E4), 20);
    lemma_read_le32_left(hf, fill(0, 0x3E4), 24);
    lemma_read_le32_left(hd, t, 12);
    lemma_read_le32_left(hd, t, 16);
    lemma_read_le32_left(hd, t, 20);
    lemma_read_le32_left(hd, t, 24);
    assert(h.subrange(0, 4) =~= img_magic());
    assert(h[7] == hd[7]);
    assert(hf[7] == IMG_FORMAT_SIGNED);
}

/// A number read inside the left part of a concatenation.
proof fn lemma_read_le32_left(a: Seq<u8>, b: Seq<u8>, off: int)
    requires
        0 <= off,
        off + 4 <= a.len(),
    ensures
        read_le32(a + b, off) == read_le32(a, off),
{
}

/// A number read where the right part of a concatenation starts.
proof fn lemma_read_le32_right(a: Seq<u8>, b: Seq<u8>, off: int)
    requires
        off == a.len(),
        4 <= b.len(),
    ensures
        read_le32(a + b, off) == read_le32(b, 0),
{
}

} // verus!
