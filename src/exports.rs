//! Entry points that the guest exports to the host, each a straight line:
//! validate the input, log, compute, emit the output, return.
use vstd::prelude::*;
use vstd::string::{is_ascii, StringSliceAdditionalSpecFns};
use vstd::utf8::valid_utf8;

use crate::fmt::{dec_of, hex_of, push_dec, push_hex};
use crate::host::HostLog;
use crate::memory::{region_bytes, region_ok, GuestMemory, MarshalError, Ptr};
use crate::text::view_as_text;

verus! {

broadcast use {vstd::utf8::group_utf8_lib, vstd::string::group_string_axioms};

/// The fixed greeting logged by [`hello`].
pub const HELLO: &'static str = "Hello, World!";

/// The status that [`hello`] returns on success.
pub const HELLO_STATUS: i32 = 42;

/// The greeting that [`hello`] logs for `name`.
pub open spec fn greeting(name: Seq<u8>) -> Seq<u8> {
    "Hello ".spec_bytes() + name + ", ca marche pontiac".spec_bytes()
}

/// The text that [`hello`] emits for `name`.
pub open spec fn from_within(name: Seq<u8>) -> Seq<u8> {
    "This ".spec_bytes() + name + ", comes from within".spec_bytes()
}

/// The message that reports an input: `prefix`, the host's pointer in
/// hexadecimal, a space, and the length in decimal.
pub open spec fn pointer_report(prefix: &str, host_ptr: usize, length: usize) -> Seq<u8> {
    prefix.spec_bytes() + hex_of(host_ptr as nat) + " ".spec_bytes() + dec_of(length as nat)
}

/// The first message [`hello`] and [`read_big_bytes_fixed`] log:
/// `input ptr 0x<host_ptr> <length>`.
pub open spec fn input_report(host_ptr: usize, length: usize) -> Seq<u8> {
    pointer_report("input ptr 0x", host_ptr, length)
}

/// The middle message [`read_big_bytes`] logs: `slice info 0x<host_ptr>
/// <length>`, followed by ` 2`, the byte it wrote at offset 1, when the input
/// is long enough to hold that byte.
pub open spec fn slice_report(host_ptr: usize, length: usize) -> Seq<u8> {
    if length >= 2 {
        pointer_report("slice info 0x", host_ptr, length) + " ".spec_bytes() + dec_of(2)
    } else {
        pointer_report("slice info 0x", host_ptr, length)
    }
}

/// Appends `tail` to `v`.
fn push_all(v: &mut Vec<u8>, tail: &[u8])
    ensures
        final(v)@ == old(v)@ + tail@,
{
    let mut i: usize = 0;
    while i < tail.len()
        invariant
            0 <= i <= tail@.len(),
            v@ == old(v)@ + tail@.subrange(0, i as int),
        decreases tail@.len() - i,
    {
        v.push(tail[i]);
        i = i + 1;
        assert(tail@.subrange(0, i as int) == tail@.subrange(0, i - 1) + seq![tail@[i - 1]]);
    }
    assert(tail@.subrange(0, tail@.len() as int) == tail@);
}

/// `prefix`, then `middle`, then `suffix`, as one buffer.
fn concat3(prefix: &str, middle: &[u8], suffix: &str) -> (r: Vec<u8>)
    ensures
        r@ == prefix.spec_bytes() + middle@ + suffix.spec_bytes(),
{
    let mut r: Vec<u8> = Vec::new();
    push_all(&mut r, prefix.as_bytes());
    push_all(&mut r, middle);
    push_all(&mut r, suffix.as_bytes());
    assert(r@ =~= prefix.spec_bytes() + middle@ + suffix.spec_bytes());
    r
}

/// Builds [`pointer_report`].
fn pointer_message(prefix: &str, host_ptr: usize, length: usize) -> (r: Vec<u8>)
    ensures
        r@ == pointer_report(prefix, host_ptr, length),
{
    let mut r: Vec<u8> = Vec::new();
    push_all(&mut r, prefix.as_bytes());
    push_hex(&mut r, host_ptr);
    push_all(&mut r, " ".as_bytes());
    push_dec(&mut r, length);
    assert(r@ =~= pointer_report(prefix, host_ptr, length));
    r
}

/// Greets the UTF-8 name held in `[address, address + length)`; `host_ptr`
/// is the address of that input as the host sees it.
///
/// On success it logs [`input_report`], the greeting and then [`HELLO`],
/// emits [`from_within`] of the name into `output`, points `output2` at the
/// name itself, and returns [`HELLO_STATUS`]. An invalid region gives
/// `InvalidRegion`, a name that is not UTF-8 gives `InvalidEncoding`; on either
/// failure nothing is logged and the memory and both slots are untouched.
pub fn hello(
    mem: &mut GuestMemory,
    host: &mut HostLog,
    address: usize,
    length: usize,
    host_ptr: usize,
    output: &mut Ptr,
    output2: &mut Ptr,
) -> (r: Result<i32, MarshalError>)
    requires
        old(mem).wf(),
        2 * old(mem)@.len() + 64 <= usize::MAX,
    ensures
        final(mem).wf(),
        r is Ok <==> region_ok(old(mem)@, address as int, length as int)
            && valid_utf8(region_bytes(old(mem)@, address as int, length as int)),
        !region_ok(old(mem)@, address as int, length as int)
            ==> r == Err::<i32, MarshalError>(MarshalError::InvalidRegion),
        region_ok(old(mem)@, address as int, length as int)
            && !valid_utf8(region_bytes(old(mem)@, address as int, length as int))
            ==> r == Err::<i32, MarshalError>(MarshalError::InvalidEncoding),
        r is Err ==> final(mem)@ == old(mem)@ && final(host)@ == old(host)@
            && *final(output) == *old(output) && *final(output2) == *old(output2),
        r is Ok ==> {
            let name = region_bytes(old(mem)@, address as int, length as int);
            &&& r == Ok::<i32, MarshalError>(HELLO_STATUS)
            &&& final(host)@ == old(host)@.push(input_report(host_ptr, length)).push(greeting(name)).push(
                HELLO.spec_bytes(),
            )
            &&& final(mem)@ == old(mem)@ + from_within(name)
            &&& *final(output) == (Ptr { ptr: old(mem)@.len() as usize, len: from_within(name).len() as usize })
            &&& *final(output2) == (Ptr { ptr: address, len: length })
        },
{
    let (greet, within) = {
        let view = match mem.view_bytes(address, length) {
            Ok(v) => v,
            Err(e) => return Err(e),
        };
        let text = match view_as_text(&view) {
            Ok(t) => t,
            Err(e) => return Err(e),
        };
        let name = text.as_bytes();
        (concat3("Hello ", name, ", ca marche pontiac"), concat3("This ", name, ", comes from within"))
    };
    proof {
        reveal_strlit("This ");
        reveal_strlit(", comes from within");
        assert(is_ascii("This "));
        assert(is_ascii(", comes from within"));
    }
    let info = pointer_message("input ptr 0x", host_ptr, length);
    host.log(info.as_slice());
    host.log(greet.as_slice());
    host.log(HELLO.as_bytes());
    mem.emit_output(within.as_slice(), output);
    *output2 = Ptr { ptr: address, len: length };
    Ok(HELLO_STATUS)
}

/// Takes write access to the input `[address, address + length)`, whose
/// address the host sees as `host_ptr`. It logs `WTF`, sets the byte at
/// offset 1 to 2 when the input holds that byte, logs [`slice_report`],
/// hands the same region back through `output`, and logs `all done!`. A
/// zero-length or one-byte input is valid and is left as it is. An invalid
/// region gives `InvalidRegion`, and then nothing changes.
pub fn read_big_bytes(
    mem: &mut GuestMemory,
    host: &mut HostLog,
    address: usize,
    length: usize,
    host_ptr: usize,
    output: &mut Ptr,
) -> (r: Result<(), MarshalError>)
    requires
        old(mem).wf(),
    ensures
        final(mem).wf(),
        r is Ok <==> region_ok(old(mem)@, address as int, length as int),
        r is Err ==> r == Err::<(), MarshalError>(MarshalError::InvalidRegion)
            && final(mem)@ == old(mem)@ && final(host)@ == old(host)@ && *final(output) == *old(output),
        r is Ok ==> final(mem)@ == (if length >= 2 {
            old(mem)@.update(address + 1, 2u8)
        } else {
            old(mem)@
        }) && final(host)@ == old(host)@.push("WTF".spec_bytes()).push(slice_report(host_ptr, length)).push(
            "all done!".spec_bytes(),
        ) && *final(output) == (Ptr { ptr: address, len: length }),
{
    if length >= 2 {
        match mem.write_byte(address, length, 1, 2u8) {
            Ok(()) => {},
            Err(e) => return Err(e),
        }
    } else {
        match mem.view_bytes(address, length) {
            Ok(_) => {},
            Err(e) => return Err(e),
        }
    }
    host.log("WTF".as_bytes());
    let mut info = pointer_message("slice info 0x", host_ptr, length);
    if length >= 2 {
        push_all(&mut info, " ".as_bytes());
        push_dec(&mut info, 2);
    }
    host.log(info.as_slice());
    *output = Ptr { ptr: address, len: length };
    host.log("all done!".as_bytes());
    Ok(())
}

/// Reports the input `[address, address + length)`, whose address the host
/// sees as `host_ptr`, by logging [`input_report`], and returns the fixed
/// one-byte output `[0]`. The memory is only read. An invalid region gives
/// `InvalidRegion`, and then nothing is logged.
pub fn read_big_bytes_fixed(
    mem: &GuestMemory,
    host: &mut HostLog,
    address: usize,
    length: usize,
    host_ptr: usize,
) -> (r: Result<Vec<u8>, MarshalError>)
    ensures
        r is Ok <==> region_ok(mem@, address as int, length as int),
        r is Err ==> r == Err::<Vec<u8>, MarshalError>(MarshalError::InvalidRegion)
            && final(host)@ == old(host)@,
        r matches Ok(out) ==> out@ == seq![0u8]
            && final(host)@ == old(host)@.push(input_report(host_ptr, length)),
{
    match mem.view_bytes(address, length) {
        Ok(_) => {},
        Err(e) => return Err(e),
    }
    let info = pointer_message("input ptr 0x", host_ptr, length);
    host.log(info.as_slice());
    let mut out: Vec<u8> = Vec::new();
    out.push(0u8);
    Ok(out)
}

} // verus!
