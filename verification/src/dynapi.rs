//! SDL2's dynamic API table: where each function's address is read from,
//! which entries are replaced with hooks, and what is cached of them.
use vstd::prelude::*;
use vstd::string::StringExecFns;
use crate::symbols::{DlsymCache, Pointer, Sdl2Hook, sdl2_hook_of, try_modify_symbol};

verus! {

/// The number of entries of the host's own jump table, which holds the
/// functions that the application's table is too short for.
pub const INTERNAL_JUMP_TABLE_LEN: usize = 601;

/// Where the address of the function at an index of SDL2's function list is read.
#[derive(Debug, Clone, Copy, PartialEq, Eq, Structural)]
pub enum DynapiSlot {
    /// Not read at all.
    Skip,
    /// From the application's jump table, at this index.
    Table(usize),
    /// From the host's own jump table, at this index (newer functions).
    Internal(usize),
}

/// The slot of index `i`, for an application table of `tablesize` entries:
/// the application's table up to and including `tablesize`, the host's own
/// table beyond it (only when the newer functions were handed out), and
/// nothing beyond both.
pub open spec fn slot_of(i: int, tablesize: int, modern_ok: bool) -> DynapiSlot {
    if i > tablesize && i > INTERNAL_JUMP_TABLE_LEN {
        DynapiSlot::Skip
    } else if i > tablesize {
        if modern_ok {
            DynapiSlot::Internal(i as usize)
        } else {
            DynapiSlot::Skip
        }
    } else {
        DynapiSlot::Table(i as usize)
    }
}

/// An address is read from the application's table only at an index within
/// it, and from the host's own table only beyond it and within the host's.
pub proof fn law_slots_stay_in_their_tables(i: usize, tablesize: u32, modern_ok: bool)
    ensures
        slot_of(i as int, tablesize as int, modern_ok) matches DynapiSlot::Table(j) ==> j == i && i <= tablesize,
        slot_of(i as int, tablesize as int, modern_ok) matches DynapiSlot::Internal(j) ==> j == i && tablesize < i
            <= INTERNAL_JUMP_TABLE_LEN && modern_ok,
{
}

/// The slot of index `i` (see `slot_of`). Index 601 beyond a shorter
/// application table is outside the host's table, and is not asked for.
pub fn dynapi_slot(i: usize, tablesize: u32, modern_ok: bool) -> (r: DynapiSlot)
    requires
        !(modern_ok && i > tablesize && i == INTERNAL_JUMP_TABLE_LEN),
    ensures
        r == slot_of(i as int, tablesize as int, modern_ok),
{
    let beyond_table = i > tablesize as usize;
    if beyond_table && i > INTERNAL_JUMP_TABLE_LEN {
        DynapiSlot::Skip
    } else if beyond_table {
        if modern_ok {
            DynapiSlot::Internal(i)
        } else {
            DynapiSlot::Skip
        }
    } else {
        DynapiSlot::Table(i)
    }
}

/// What is done for one function of SDL2's list: where its address is read,
/// and the hook that replaces it there, if any.
#[derive(Debug, Clone, Copy, PartialEq, Eq, Structural)]
pub struct DynapiStep {
    pub slot: DynapiSlot,
    pub hook: Option<Sdl2Hook>,
}

/// The steps for SDL2's function list, one per function in order: its slot,
/// and (where it is read at all) the hook that replaces it in that slot.
/// A list longer than the host's table, with a shorter application table and
/// the newer functions handed out, is not asked for.
pub fn dynapi_plan(funcs: &Vec<String>, tablesize: u32, modern_ok: bool) -> (r: Vec<DynapiStep>)
    requires
        !(modern_ok && tablesize < INTERNAL_JUMP_TABLE_LEN && funcs.len() > INTERNAL_JUMP_TABLE_LEN),
    ensures
        r@.len() == funcs@.len(),
        forall|i: int|
            0 <= i < r@.len() ==> {
                &&& #[trigger] r@[i].slot == slot_of(i, tablesize as int, modern_ok)
                &&& r@[i].hook == (if r@[i].slot == DynapiSlot::Skip {
                    None
                } else {
                    sdl2_hook_of(funcs@[i]@)
                })
            },
{
    let mut out: Vec<DynapiStep> = Vec::new();
    let mut i: usize = 0;
    while i < funcs.len()
        invariant
            i <= funcs@.len(),
            out@.len() == i,
            !(modern_ok && tablesize < INTERNAL_JUMP_TABLE_LEN && funcs.len() > INTERNAL_JUMP_TABLE_LEN),
            forall|k: int|
                0 <= k < i ==> {
                    &&& #[trigger] out@[k].slot == slot_of(k, tablesize as int, modern_ok)
                    &&& out@[k].hook == (if out@[k].slot == DynapiSlot::Skip {
                        None
                    } else {
                        sdl2_hook_of(funcs@[k]@)
                    })
                },
        decreases funcs@.len() - i,
    {
        let slot = dynapi_slot(i, tablesize, modern_ok);
        let hook = match slot {
            DynapiSlot::Skip => None,
            _ => try_modify_symbol(funcs[i].as_str()),
        };
        out.push(DynapiStep { slot, hook });
        i = i + 1;
    }
    out
}

/// The name under which a function's address from the dynamic API table is
/// cached, besides its own name.
pub open spec fn dynapi_cache_name(func: Seq<char>) -> Seq<char> {
    func + "_hw_sdl_dynapi"@
}

/// Caches the address read for a function of the dynamic API table under
/// its own name and under its dynamic-API name; no other name changes.
pub fn record_dynapi_pointer(cache: &mut DlsymCache, func: &str, address: usize)
    ensures
        final(cache).get_spec(func@) == Some(Pointer(address)),
        final(cache).get_spec(dynapi_cache_name(func@)) == Some(Pointer(address)),
        forall|n: Seq<char>|
            n != func@ && n != dynapi_cache_name(func@) ==> #[trigger] final(cache).get_spec(n)
                == old(cache).get_spec(n),
{
    let mut name = String::from_str(func);
    name.append("_hw_sdl_dynapi");
    cache.insert(name.as_str(), Pointer(address));
    cache.insert(func, Pointer(address));
}

} // verus!
