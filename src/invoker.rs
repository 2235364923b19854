//! The instruction sequences that the debugger evaluates in a stopped
//! thread of the target: a call of a function without arguments, the close
//! of a library handle, and the loader program of the manual injection
//! strategy.
//!
//! The loader program reads and writes the staging record that
//! [`crate::injector::stage_inout_record`] lays out: it opens the library
//! named in slot 0 and stores the handle in slot 6, resolves the names in
//! slots 1 to 3 into slots 7 to 9, and on the first failure stores the
//! loader's error message and its length in slots 4 and 5 and closes the
//! library if it was opened.
use crate::text::{decimal, decimal_string};
use vstd::prelude::*;

verus! {

/// Calls the function at an address with no arguments (the address goes
/// between the two parts).
pub const CALL_HEAD: &'static str = "#!mini-llvm-expr 1\nconst target_ptr ptr ";

pub const CALL_TAIL: &'static str =
    "\ndefine_function_type void void_no_arg\ncall _ void_no_arg target_ptr\nret_void\n";

/// Closes a library handle (the handle goes between the two parts).
pub const CLOSE_HEAD: &'static str =
    "#!mini-llvm-expr 1\ndefine_function_type i32 dlclose ptr\ndeclare_function dlclose dlclose\nconst target_ptr ptr ";

pub const CLOSE_TAIL: &'static str = "\ncall ret dlclose dlclose target_ptr\nret_void\n";

/// The loader program (the staging record's address goes between the two
/// parts).
pub const LOADER_HEAD: &'static str = "#!mini-llvm-expr 9
define_struct InOut ptr ptr ptr ptr ptr iptr ptr ptr ptr ptr
define_function_type ptr dlopen ptr i32
declare_function dlopen dlopen
define_function_type ptr dlerror
declare_function dlerror dlerror
define_function_type ptr dlsym ptr ptr
declare_function dlsym dlsym
define_function_type iptr strlen ptr
declare_function strlen strlen
define_function_type i32 dlclose ptr
declare_function dlclose dlclose
const RTLD_LAZY i32 1
const iptr_0 iptr 0
const load_path_idx i32 0
const saver_save_name_idx i32 1
const free_mem_name_idx i32 2
const location_name_idx i32 3
const error_idx i32 4
const error_len_idx i32 5
const handle_idx i32 6
const saver_save_idx i32 7
const free_mem_idx i32 8
const location_idx i32 9
const input ptr ";

pub const LOADER_TAIL: &'static str = "
begin_block 0
load load_path ptr input
call handle dlopen dlopen load_path RTLD_LAZY
getelementptr handle_ptr InOut input iptr_0 handle_idx
store handle handle_ptr
icmp handle_is_null_0 eq handle null
cond_br handle_is_null_0 4 1
begin_block 1
getelementptr saver_save_name_ptr InOut input iptr_0 saver_save_name_idx
load saver_save_name ptr saver_save_name_ptr
call saver_save dlsym dlsym handle saver_save_name
getelementptr saver_save_ptr InOut input iptr_0 saver_save_idx
store saver_save saver_save_ptr
icmp saver_save_is_null eq saver_save null
cond_br saver_save_is_null 4 2
begin_block 2
getelementptr free_mem_name_ptr InOut input iptr_0 free_mem_name_idx
load free_mem_name ptr free_mem_name_ptr
call free_mem dlsym dlsym handle free_mem_name
getelementptr free_mem_ptr InOut input iptr_0 free_mem_idx
store free_mem free_mem_ptr
icmp free_mem_is_null eq free_mem null
cond_br free_mem_is_null 4 3
begin_block 3
getelementptr location_name_ptr InOut input iptr_0 location_name_idx
load location_name ptr location_name_ptr
call location dlsym dlsym handle location_name
getelementptr location_ptr InOut input iptr_0 location_idx
store location location_ptr
icmp location_is_null eq location null
cond_br location_is_null 4 8
begin_block 4
call error dlerror dlerror
getelementptr error_ptr InOut input iptr_0 error_idx
store error error_ptr
icmp error_is_null eq error null
cond_br error_is_null 6 5
begin_block 5
call error_len strlen strlen error
getelementptr error_len_ptr InOut input iptr_0 error_len_idx
store error_len error_len_ptr
br 6
begin_block 6
icmp handle_is_null_2 eq handle null
cond_br handle_is_null_2 8 7
begin_block 7
call _ dlclose dlclose handle
br 8
begin_block 8
ret_void
";

fn around(head: &str, value: u64, tail: &str) -> (r: String)
    ensures
        r@ == head@ + decimal(value as nat) + tail@,
{
    let mut r = String::from_str(head);
    let digits = decimal_string(value);
    r.append(digits.as_str());
    r.append(tail);
    r
}

/// The sequence that calls the function at `address` with no arguments.
pub fn call_noargs_expression(address: u64) -> (r: String)
    ensures
        r@ == CALL_HEAD@ + decimal(address as nat) + CALL_TAIL@,
{
    around(CALL_HEAD, address, CALL_TAIL)
}

/// The sequence that closes the library `handle`.
pub fn close_library_expression(handle: u64) -> (r: String)
    ensures
        r@ == CLOSE_HEAD@ + decimal(handle as nat) + CLOSE_TAIL@,
{
    around(CLOSE_HEAD, handle, CLOSE_TAIL)
}

/// The loader program for a staging record placed at `record`.
pub fn loader_expression(record: u64) -> (r: String)
    ensures
        r@ == LOADER_HEAD@ + decimal(record as nat) + LOADER_TAIL@,
{
    around(LOADER_HEAD, record, LOADER_TAIL)
}

} // verus!
