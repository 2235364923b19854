//! Making the payload resident in the target and finding its entry points.
//!
//! Two strategies. The direct one asks the debugger to load the image and
//! then looks the module and its symbols up; [`load_image`] decides from
//! what was found. The manual one stages the library path and the three
//! symbol names in target memory, next to a record of pointer-sized slots,
//! has the target's own dynamic loader open the library and resolve the
//! names, and reads the record back; [`stage_inout_record`] lays the
//! staging area out and [`inout_outcome`] decides from the record.
use crate::process_remote::{MissingPart, ProcessRemoteError};
use crate::session::EntryPoints;
use crate::wire::{read_u64_at, u64_bytes, u64_of, u64_to_bytes, ByteOrder};
use vstd::prelude::*;
use vstd::string::StringSliceAdditionalSpecFns;

verus! {

/// The exported function that builds the transfer buffer.
pub const SAVE_SYMBOL: &'static str = "CONSOLE_LOG_SAVER_SAVE";

/// The exported function that releases the transfer buffer.
pub const FREE_SYMBOL: &'static str = "CONSOLE_LOG_SAVER_FREE_MEM";

/// The exported data symbol that holds the transfer buffer's address.
pub const LOCATION_SYMBOL: &'static str = "CONSOLE_LOG_SAVER_SAVED_LOCATION";

/// How the payload was made resident, and so how it is released.
#[derive(PartialEq, Eq, Structural, Clone, Copy, Debug)]
pub enum PayloadHandle {
    /// Loaded by the debugger: unload the image with this token.
    ImageToken(u32),
    /// Opened by the target's dynamic loader: close this library handle.
    Library(u64),
}

/// The resident payload: its entry points and how to release it.
pub struct LoadImageResult {
    saver_save: u64,
    free_mem: u64,
    location: u64,
    handle: PayloadHandle,
}

impl LoadImageResult {
    pub closed spec fn entry(&self) -> EntryPoints {
        EntryPoints { save: self.saver_save, free: self.free_mem, location: self.location }
    }

    pub closed spec fn release(&self) -> PayloadHandle {
        self.handle
    }

    /// The address of the function that builds the transfer buffer.
    pub fn saver_save(&self) -> (r: u64)
        ensures
            r == self.entry().save,
    {
        self.saver_save
    }

    /// The address of the function that releases the transfer buffer.
    pub fn free_mem(&self) -> (r: u64)
        ensures
            r == self.entry().free,
    {
        self.free_mem
    }

    /// The address of the data symbol that holds the buffer's address.
    pub fn location(&self) -> (r: u64)
        ensures
            r == self.entry().location,
    {
        self.location
    }

    pub fn entry_points(&self) -> (r: EntryPoints)
        ensures
            r == self.entry(),
    {
        EntryPoints { save: self.saver_save, free: self.free_mem, location: self.location }
    }

    /// Gives the payload up: what the driver must do to release it.
    pub fn unload(self) -> (r: PayloadHandle)
        ensures
            r == self.release(),
    {
        self.handle
    }
}

/// The first part that a lookup did not find, if any.
pub open spec fn first_missing(
    module_found: bool,
    saver_save: Option<u64>,
    free_mem: Option<u64>,
    location: Option<u64>,
) -> Option<MissingPart> {
    if !module_found {
        Some(MissingPart::Module)
    } else if saver_save.is_none() {
        Some(MissingPart::SaveSymbol)
    } else if free_mem.is_none() {
        Some(MissingPart::FreeSymbol)
    } else if location.is_none() {
        Some(MissingPart::LocationSymbol)
    } else {
        None
    }
}

fn missing_message(missing: MissingPart) -> (r: String) {
    match missing {
        MissingPart::Module => String::from_str("loaded module not found"),
        MissingPart::SaveSymbol => String::from_str("save symbol not found"),
        MissingPart::FreeSymbol => String::from_str("free_mem symbol not found"),
        MissingPart::LocationSymbol => String::from_str("location symbol not found"),
    }
}

/// The direct strategy: the debugger loaded the image as `image_token`;
/// `module_found` says whether the module could be looked up again, and
/// the options hold the symbols' load addresses where they were found.
/// On an error the driver unloads the image.
pub fn load_image(
    image_token: u32,
    module_found: bool,
    saver_save: Option<u64>,
    free_mem: Option<u64>,
    location: Option<u64>,
) -> (r: Result<LoadImageResult, ProcessRemoteError>)
    ensures
        match first_missing(module_found, saver_save, free_mem, location) {
            None => r is Ok && r->Ok_0.entry() == (EntryPoints {
                save: saver_save->Some_0,
                free: free_mem->Some_0,
                location: location->Some_0,
            }) && r->Ok_0.release() == PayloadHandle::ImageToken(image_token),
            Some(m) => r matches Err(ProcessRemoteError::InjectionFailed { missing, .. })
                && missing == m,
        },
{
    let missing = if !module_found {
        MissingPart::Module
    } else if saver_save.is_none() {
        MissingPart::SaveSymbol
    } else if free_mem.is_none() {
        MissingPart::FreeSymbol
    } else if location.is_none() {
        MissingPart::LocationSymbol
    } else {
        return Ok(
            LoadImageResult {
                saver_save: saver_save.unwrap(),
                free_mem: free_mem.unwrap(),
                location: location.unwrap(),
                handle: PayloadHandle::ImageToken(image_token),
            },
        );
    };
    Err(ProcessRemoteError::InjectionFailed { missing, diagnostic: missing_message(missing) })
}

// ----- the manual strategy -----

/// The number of pointer-sized slots at the start of the staging area.
pub const INOUT_SLOTS: usize = 10;

/// Slot: address of the library path.
pub const LOAD_PATH_SLOT: usize = 0;

/// Slot: address of the first of the three symbol names.
pub const FIRST_NAME_SLOT: usize = 1;

/// Slot: the loader's error message, or null.
pub const ERROR_SLOT: usize = 4;

/// Slot: the length of the error message.
pub const ERROR_LEN_SLOT: usize = 5;

/// Slot: the library handle, or null.
pub const HANDLE_SLOT: usize = 6;

/// Slots: the resolved addresses of the three symbols, in name order.
pub const SAVE_SLOT: usize = 7;

pub const FREE_SLOT: usize = 8;

pub const LOCATION_SLOT: usize = 9;

/// The strings that the staging area holds, in order.
pub open spec fn staged_strings(load_path: Seq<u8>) -> Seq<Seq<u8>> {
    seq![
        load_path,
        SAVE_SYMBOL.spec_bytes(),
        FREE_SYMBOL.spec_bytes(),
        LOCATION_SYMBOL.spec_bytes(),
    ]
}

/// Each string followed by a NUL byte.
pub open spec fn string_area(strs: Seq<Seq<u8>>) -> Seq<u8>
    decreases strs.len(),
{
    if strs.len() == 0 {
        Seq::empty()
    } else {
        string_area(strs.drop_last()) + strs.last().push(0u8)
    }
}

pub open spec fn words_bytes(ws: Seq<u64>, order: ByteOrder) -> Seq<u8>
    decreases ws.len(),
{
    if ws.len() == 0 {
        Seq::empty()
    } else {
        words_bytes(ws.drop_last(), order) + u64_bytes(ws.last(), order)
    }
}

/// The slots as staged: the addresses of the strings, then zeros.
pub open spec fn staged_slots(strs: Seq<Seq<u8>>, base: u64) -> Seq<u64> {
    Seq::new(
        INOUT_SLOTS as nat,
        |k: int|
            if k < strs.len() {
                (base + 8 * INOUT_SLOTS + string_area(strs.take(k)).len()) as u64
            } else {
                0u64
            },
    )
}

/// The staging area placed at `base`: the slots, then the strings.
pub open spec fn inout_record(load_path: Seq<u8>, base: u64, order: ByteOrder) -> Seq<u8> {
    words_bytes(staged_slots(staged_strings(load_path), base), order) + string_area(
        staged_strings(load_path),
    )
}

proof fn lemma_string_area_grows(strs: Seq<Seq<u8>>, k: int)
    requires
        0 <= k <= strs.len(),
    ensures
        string_area(strs.take(k)).len() <= string_area(strs).len(),
    decreases strs.len() - k,
{
    if k < strs.len() {
        lemma_string_area_grows(strs, k + 1);
        assert(strs.take(k + 1).drop_last() =~= strs.take(k));
    } else {
        assert(strs.take(k) =~= strs);
    }
}

fn append_c_string(out: &mut Vec<u8>, s: &[u8])
    ensures
        final(out)@ == old(out)@ + s@.push(0u8),
{
    let mut i: usize = 0;
    while i < s.len()
        invariant
            i <= s@.len(),
            out@ =~= old(out)@ + s@.take(i as int),
        decreases s@.len() - i,
    {
        out.push(s[i]);
        assert(s@.take(i as int + 1) =~= s@.take(i as int).push(s@[i as int]));
        i = i + 1;
    }
    out.push(0u8);
    assert(s@.take(s@.len() as int) =~= s@);
}

/// The staging area for loading the library at `load_path`, placed at
/// target address `base`; `None` when its addresses would not fit in 64
/// bits.
pub fn stage_inout_record(load_path: &[u8], base: u64, order: ByteOrder) -> (r: Option<Vec<u8>>)
    ensures
        match r {
            Some(bytes) => bytes@ == inout_record(load_path@, base, order),
            None => base + 8 * INOUT_SLOTS + string_area(staged_strings(load_path@)).len()
                > u64::MAX,
        },
{
    let ghost strs = staged_strings(load_path@);
    let mut area: Vec<u8> = Vec::new();
    let mut offsets: Vec<usize> = Vec::new();
    assert(strs.len() == 4);
    assert(area@ =~= string_area(strs.take(0)));
    offsets.push(area.len());
    append_c_string(&mut area, load_path);
    assert(strs.take(1).drop_last() =~= strs.take(0));
    assert(area@ =~= string_area(strs.take(1)));
    offsets.push(area.len());
    append_c_string(&mut area, SAVE_SYMBOL.as_bytes());
    assert(strs.take(2).drop_last() =~= strs.take(1));
    assert(area@ =~= string_area(strs.take(2)));
    offsets.push(area.len());
    append_c_string(&mut area, FREE_SYMBOL.as_bytes());
    assert(strs.take(3).drop_last() =~= strs.take(2));
    assert(area@ =~= string_area(strs.take(3)));
    offsets.push(area.len());
    append_c_string(&mut area, LOCATION_SYMBOL.as_bytes());
    assert(strs.take(4).drop_last() =~= strs.take(3));
    assert(area@ =~= string_area(strs.take(4)));
    assert(strs.take(4) =~= strs);
    assert(forall|k: int| 0 <= k < 4 ==> offsets@[k] == string_area(#[trigger] strs.take(k)).len());
    let header = (8 * INOUT_SLOTS) as u64;
    if base > u64::MAX - header || (area.len() as u64) > u64::MAX - header - base {
        return None;
    }
    let ghost slots = staged_slots(strs, base);
    let mut record: Vec<u8> = Vec::new();
    let mut k: usize = 0;
    while k < INOUT_SLOTS
        invariant
            k <= INOUT_SLOTS,
            offsets@.len() == 4,
            forall|j: int| 0 <= j < 4 ==> offsets@[j] == string_area(#[trigger] strs.take(j)).len(),
            area@ == string_area(strs),
            base + header + area@.len() <= u64::MAX,
            header == 8 * INOUT_SLOTS,
            strs == staged_strings(load_path@),
            slots == staged_slots(strs, base),
            record@ == words_bytes(slots.take(k as int), order),
        decreases INOUT_SLOTS - k,
    {
        let value: u64 = if k < 4 {
            proof {
                lemma_string_area_grows(strs, k as int);
            }
            base + header + offsets[k] as u64
        } else {
            0
        };
        assert(value == slots[k as int]);
        let mut word = u64_to_bytes(value, order);
        record.append(&mut word);
        assert(slots.take(k as int + 1).drop_last() =~= slots.take(k as int));
        k = k + 1;
    }
    assert(slots.take(INOUT_SLOTS as int) =~= slots);
    record.append(&mut area);
    Some(record)
}

/// What the manual strategy's record says once the loader has run.
pub enum InjectionOutcome {
    /// The library is open and all three symbols were resolved.
    Loaded(LoadImageResult),
    /// Something was not found. The loader's message, where it gave one,
    /// is `message_len` bytes at `message_at`; the program closed the
    /// library already.
    Failed { missing: MissingPart, message_at: u64, message_len: u64 },
}

/// Slot `k` of a record read back from the target.
pub open spec fn slot(record: Seq<u8>, k: int, order: ByteOrder) -> u64 {
    u64_of(record.skip(8 * k), order)
}

/// The first slot of the handle and the three addresses that is null.
pub open spec fn first_null(record: Seq<u8>, order: ByteOrder) -> Option<MissingPart> {
    if slot(record, HANDLE_SLOT as int, order) == 0 {
        Some(MissingPart::Module)
    } else if slot(record, SAVE_SLOT as int, order) == 0 {
        Some(MissingPart::SaveSymbol)
    } else if slot(record, FREE_SLOT as int, order) == 0 {
        Some(MissingPart::FreeSymbol)
    } else if slot(record, LOCATION_SLOT as int, order) == 0 {
        Some(MissingPart::LocationSymbol)
    } else {
        None
    }
}

/// Decides from the slots read back after the loader program ran: loaded
/// when no error message was set and the handle and all three addresses
/// are non-null.
pub fn inout_outcome(record: &[u8], order: ByteOrder) -> (r: InjectionOutcome)
    requires
        record@.len() >= 8 * INOUT_SLOTS,
    ensures
        ({
            let error = slot(record@, ERROR_SLOT as int, order);
            match r {
                InjectionOutcome::Loaded(l) => error == 0 && first_null(record@, order).is_none()
                    && l.entry() == (EntryPoints {
                    save: slot(record@, SAVE_SLOT as int, order),
                    free: slot(record@, FREE_SLOT as int, order),
                    location: slot(record@, LOCATION_SLOT as int, order),
                }) && l.release() == PayloadHandle::Library(
                    slot(record@, HANDLE_SLOT as int, order),
                ),
                InjectionOutcome::Failed { missing, message_at, message_len } => (error != 0
                    || first_null(record@, order).is_some()) && message_at == error && message_len
                    == slot(record@, ERROR_LEN_SLOT as int, order) && missing == match first_null(
                    record@,
                    order,
                ) {
                    Some(m) => m,
                    None => MissingPart::Module,
                },
            }
        }),
{
    let error = read_u64_at(record, 8 * ERROR_SLOT, order);
    let error_len = read_u64_at(record, 8 * ERROR_LEN_SLOT, order);
    let handle = read_u64_at(record, 8 * HANDLE_SLOT, order);
    let saver_save = read_u64_at(record, 8 * SAVE_SLOT, order);
    let free_mem = read_u64_at(record, 8 * FREE_SLOT, order);
    let location = read_u64_at(record, 8 * LOCATION_SLOT, order);
    let missing = if handle == 0 {
        Some(MissingPart::Module)
    } else if saver_save == 0 {
        Some(MissingPart::SaveSymbol)
    } else if free_mem == 0 {
        Some(MissingPart::FreeSymbol)
    } else if location == 0 {
        Some(MissingPart::LocationSymbol)
    } else {
        None
    };
    match missing {
        None => {
            if error == 0 {
                return InjectionOutcome::Loaded(
                    LoadImageResult {
                        saver_save,
                        free_mem,
                        location,
                        handle: PayloadHandle::Library(handle),
                    },
                );
            }
            InjectionOutcome::Failed {
                missing: MissingPart::Module,
                message_at: error,
                message_len: error_len,
            }
        },
        Some(m) => InjectionOutcome::Failed { missing: m, message_at: error, message_len: error_len },
    }
}

/// The error for a failed manual load; `message` is the loader's own
/// message, where it gave one and it could be read.
pub fn injection_error(missing: MissingPart, message: Option<&str>) -> (r: ProcessRemoteError)
    ensures
        match message {
            Some(m) => r matches ProcessRemoteError::InjectionFailed { missing: p, diagnostic: d }
                && p == missing && d@ == m@,
            None => r matches ProcessRemoteError::InjectionFailed { missing: p, .. } && p
                == missing,
        },
{
    let diagnostic = match message {
        Some(m) => String::from_str(m),
        None => String::from_str("dlopen or dlsym failed with unknown error"),
    };
    ProcessRemoteError::InjectionFailed { missing, diagnostic }
}

} // verus!
