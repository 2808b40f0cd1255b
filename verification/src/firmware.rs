//! The calls that the hypervisor itself makes into the firmware beneath it, on
//! behalf of a guest.
//!
//! Everything here is believed, not proved. What the firmware answers is its own
//! affair, so no item promises more of a result than its type and, for the
//! specification version, the width of its two numbers. The calls trap into the
//! firmware and have an implementation on RISC-V harts only.

use vstd::prelude::*;
use crate::sbi::SbiReturn;

verus! {

/// `sbi_rt::get_spec_version`, with the answer taken apart by its `major` and
/// `minor` accessors. Believed without proof: the major number has 7 bits and
/// the minor number 24, as the accessors mask them. Which numbers they are is
/// the firmware's affair.
#[verifier::external_body]
pub(crate) fn get_spec_version() -> (version: (usize, usize))
    ensures
        version.0 <= 0x7f,
        version.1 <= 0xff_ffff,
{
    let v = sbi_rt::get_spec_version();
    (v.major(), v.minor())
}

/// `sbi_rt::get_sbi_impl_id`. Nothing is claimed of the identifier.
pub assume_specification[ sbi_rt::get_sbi_impl_id ]() -> (id: usize);

/// `sbi_rt::get_sbi_impl_version`. Nothing is claimed of the version.
pub assume_specification[ sbi_rt::get_sbi_impl_version ]() -> (version: usize);

/// `sbi_rt::probe_extension` for a raw extension identifier; the result is the
/// `raw` field of its answer. Nothing is claimed of it.
#[verifier::external_body]
pub(crate) fn probe_extension(extension: usize) -> (raw: usize) {
    sbi_rt::probe_extension(extension).raw
}

/// `sbi_rt::get_mvendorid`. Nothing is claimed of the identifier.
pub assume_specification[ sbi_rt::get_mvendorid ]() -> (id: usize);

/// `sbi_rt::get_marchid`. Nothing is claimed of the identifier.
pub assume_specification[ sbi_rt::get_marchid ]() -> (id: usize);

/// `sbi_rt::get_mimpid`. Nothing is claimed of the identifier.
pub assume_specification[ sbi_rt::get_mimpid ]() -> (id: usize);

/// `sbi_rt::pmu_num_counters`. Nothing is claimed of the count.
pub assume_specification[ sbi_rt::pmu_num_counters ]() -> (count: usize);

/// `sbi_rt::pmu_counter_get_info`; the answer's two fields are copied over.
/// Nothing is claimed of them.
#[verifier::external_body]
pub(crate) fn pmu_counter_get_info(counter_idx: usize) -> (ret: SbiReturn) {
    let r = sbi_rt::pmu_counter_get_info(counter_idx);
    SbiReturn { error: r.error, value: r.value }
}

/// `sbi_rt::pmu_counter_stop` on the counters selected by base index and mask;
/// the answer's two fields are copied over. Nothing is claimed of them.
#[verifier::external_body]
pub(crate) fn pmu_counter_stop(
    counter_idx_base: usize,
    counter_idx_mask: usize,
    stop_flags: usize,
) -> (ret: SbiReturn) {
    let counters = sbi_rt::CounterMask::from_mask_base(counter_idx_mask, counter_idx_base);
    let r = sbi_rt::pmu_counter_stop(counters, stop_flags);
    SbiReturn { error: r.error, value: r.value }
}

/// `sbi_rt::remote_fence_i` on the harts selected by mask and base; the answer's
/// two fields are copied over. Nothing is claimed of them.
#[verifier::external_body]
pub(crate) fn remote_fence_i(hart_mask: usize, hart_mask_base: usize) -> (ret: SbiReturn) {
    let harts = sbi_rt::HartMask::from_mask_base(hart_mask, hart_mask_base);
    let r = sbi_rt::remote_fence_i(harts);
    SbiReturn { error: r.error, value: r.value }
}

/// `sbi_rt::remote_sfence_vma` on the harts selected by mask and base; the
/// answer's two fields are copied over. Nothing is claimed of them.
#[verifier::external_body]
pub(crate) fn remote_sfence_vma(
    hart_mask: usize,
    hart_mask_base: usize,
    start_addr: usize,
    size: usize,
) -> (ret: SbiReturn) {
    let harts = sbi_rt::HartMask::from_mask_base(hart_mask, hart_mask_base);
    let r = sbi_rt::remote_sfence_vma(harts, start_addr, size);
    SbiReturn { error: r.error, value: r.value }
}

} // verus!
