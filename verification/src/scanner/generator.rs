//! Generation of server-side Rust code from a protocol definition.
//!
//! Each piece of generated text is stated as a spec function that takes the text written before
//! it (`out`) and the indentation level it starts at, and returns the text after it; the pieces
//! compose in the order the generator writes them.

use vstd::prelude::*;

use crate::scanner::code_buffer::{indent_text, line, drop_end, Buffer};
use crate::scanner::model::{
    valid_name, validate_name, variable_names, variable_view, arguments_view, Argument, ArgumentView,
    DocumentView, Document, Entry, EntryView, EnumView, Event, Interface, InterfaceView, MessageSize,
    MessageView, RustType, Request, VariableType, constant_size,
};
use crate::text::{decimal, digits_value, is_digit, u64_to_string, to_uppercase, is_alphabetic, unicode_uppercase, unicode_alphabetic};

verus! {

/// A new line.
pub open spec fn nl() -> Seq<char> {
    seq!['\n']
}

/// Folding over the first `i + 1` items is one step after folding over the first `i`.
pub proof fn lemma_fold_take<A, B>(items: Seq<A>, init: B, f: spec_fn(B, A) -> B, i: int)
    requires
        0 <= i < items.len(),
    ensures
        items.take(i + 1).fold_left(init, f) == f(items.take(i).fold_left(init, f), items[i]),
{
    assert(items.take(i + 1).drop_last() =~= items.take(i));
}

/// Folding over all the items of a sequence taken whole.
pub proof fn lemma_fold_take_all<A, B>(items: Seq<A>, init: B, f: spec_fn(B, A) -> B)
    ensures
        items.take(items.len() as int).fold_left(init, f) == items.fold_left(init, f),
{
    assert(items.take(items.len() as int) =~= items);
}

// ------------------------------------------------------------------------------------------------
// What the interface needs imported.

/// Whether some argument has the given type.
pub open spec fn has_type(arguments: Seq<ArgumentView>, rust_type: RustType) -> bool {
    exists|k: int| 0 <= k < arguments.len() && arguments[k].rust_type == rust_type
}

/// Whether some request or event of the interface passes a file descriptor.
pub open spec fn needs_raw_fd(interface: InterfaceView) -> bool {
    (exists|r: int|
        0 <= r < interface.requests.len() && #[trigger] has_type(
            interface.requests[r].arguments,
            RustType::FD,
        )) || (exists|e: int|
        0 <= e < interface.events.len() && #[trigger] has_type(
            interface.events[e].arguments,
            RustType::FD,
        ))
}

/// Whether some event of the interface sends a string.
pub open spec fn needs_write(interface: InterfaceView) -> bool {
    exists|e: int|
        0 <= e < interface.events.len() && #[trigger] has_type(
            interface.events[e].arguments,
            RustType::String,
        )
}

/// Whether some request of the interface has arguments to read.
pub open spec fn needs_read_bytes_ext(interface: InterfaceView) -> bool {
    exists|r: int| 0 <= r < interface.requests.len() && #[trigger] interface.requests[r].arguments.len() > 0
}

/// Number of file descriptors among the arguments.
pub open spec fn fd_count(arguments: Seq<ArgumentView>) -> nat
    decreases arguments.len(),
{
    if arguments.len() == 0 {
        0
    } else {
        fd_count(arguments.drop_last()) + if arguments.last().rust_type == RustType::FD {
            1nat
        } else {
            0nat
        }
    }
}

/// Some variable-sized argument is a string exactly when some argument is a string.
pub proof fn lemma_variable_string(arguments: Seq<ArgumentView>)
    ensures
        (exists|i: int|
            0 <= i < variable_names(arguments).len() && (#[trigger] variable_names(arguments)[i]).1
                == RustType::String) <==> has_type(arguments, RustType::String),
    decreases arguments.len(),
{
    if arguments.len() > 0 {
        let rest = arguments.drop_last();
        lemma_variable_string(rest);
        let names = variable_names(arguments);
        let rest_names = variable_names(rest);
        if has_type(arguments, RustType::String) {
            let k = choose|k: int| 0 <= k < arguments.len() && arguments[k].rust_type == RustType::String;
            if k < arguments.len() - 1 {
                assert(rest[k] == arguments[k]);
                let i = choose|i: int| 0 <= i < rest_names.len() && (#[trigger] rest_names[i]).1 == RustType::String;
                assert(names[i] == rest_names[i]);
            } else {
                assert(names[names.len() - 1].1 == RustType::String);
            }
        }
        if exists|i: int| 0 <= i < names.len() && (#[trigger] names[i]).1 == RustType::String {
            let i = choose|i: int| 0 <= i < names.len() && (#[trigger] names[i]).1 == RustType::String;
            if i < rest_names.len() {
                assert(rest_names[i] == names[i]);
                let k = choose|k: int| 0 <= k < rest.len() && rest[k].rust_type == RustType::String;
                assert(arguments[k] == rest[k]);
            } else {
                assert(arguments[arguments.len() - 1].rust_type == RustType::String);
            }
        }
    }
}

// ------------------------------------------------------------------------------------------------
// Text of a module.

/// Text opening the module of an interface, with its imports and its name and version constants.
pub open spec fn module_start_text(out: Seq<char>, i: nat, interface: InterfaceView) -> Seq<char> {
    let j = i + 1;
    let a = out + nl() + indent_text(i) + "pub mod "@ + interface.name + " {"@ + nl() + line(
        j,
        "use std;"@,
    );
    let b = if needs_raw_fd(interface) {
        a + line(j, "use std::os::unix::io::RawFd;"@)
    } else {
        a
    };
    let c = if needs_write(interface) {
        b + line(j, "use std::io::Write;"@)
    } else {
        b
    };
    let d = if interface.events.len() > 0 {
        c + line(j, "use byteorder::WriteBytesExt;"@)
    } else {
        c
    };
    let e = if needs_read_bytes_ext(interface) {
        d + line(j, "use byteorder::ReadBytesExt;"@)
    } else {
        d
    };
    e + line(j, "use byteorder::NativeEndian;"@) + line(
        j,
        "use skylane::common::{SkylaneError, Header, ObjectId};"@,
    ) + line(j, "use skylane::server::{ClientSocket, Task};"@) + line(
        j,
        "use super::super::Dispatcher as Disp;"@,
    ) + nl() + indent_text(j) + "pub const NAME: &'static str = \""@ + interface.name + "\";"@
        + nl() + indent_text(j) + "pub const VERSION: u32 = "@ + decimal(interface.version as nat)
        + ";"@ + nl()
}

/// Name of an enumeration entry in generated code: upper case, with an underscore in front when
/// it would not start with a letter.
pub open spec fn entry_name(name: Seq<char>) -> Seq<char> {
    let upper = unicode_uppercase(name);
    if unicode_alphabetic(upper[0]) {
        upper
    } else {
        seq!['_'] + upper
    }
}

/// Text of an enumeration entry: a constant, or nothing for an entry whose upper-case name is
/// empty.
pub open spec fn entry_text(out: Seq<char>, k: nat, entry: EntryView) -> Seq<char> {
    if unicode_uppercase(entry.name).len() == 0 {
        out
    } else {
        out + indent_text(k) + "pub const "@ + entry_name(entry.name) + ": u32 = "@ + entry.value
            + ";\n"@
    }
}

pub open spec fn entry_step(k: nat) -> spec_fn(Seq<char>, EntryView) -> Seq<char> {
    |out: Seq<char>, entry: EntryView| entry_text(out, k, entry)
}

/// Text of an enumeration: a module with a constant for each entry.
pub open spec fn enum_text(out: Seq<char>, j: nat, e: EnumView) -> Seq<char> {
    let start = out + nl() + indent_text(j) + "pub mod "@ + e.name + " {\n"@;
    e.entries.fold_left(start, entry_step(j + 1)) + line(j, "}"@)
}

pub open spec fn enum_step(j: nat) -> spec_fn(Seq<char>, EnumView) -> Seq<char> {
    |out: Seq<char>, e: EnumView| enum_text(out, j, e)
}

/// Text of an argument of a request handler.
pub open spec fn output_argument_text(out: Seq<char>, k: nat, argument: ArgumentView) -> Seq<
    char,
> {
    out + indent_text(k) + argument.name + ": "@ + argument.rust_type.spec_output_str() + ",\n"@
}

pub open spec fn output_argument_step(k: nat) -> spec_fn(Seq<char>, ArgumentView) -> Seq<char> {
    |out: Seq<char>, argument: ArgumentView| output_argument_text(out, k, argument)
}

/// Text of the handler of a request in the `Interface` trait.
pub open spec fn request_text(out: Seq<char>, k: nat, request: MessageView) -> Seq<char> {
    let start = out + nl() + indent_text(k) + "fn "@ + valid_name(request.name) + " (\n"@ + line(
        k + 1,
        "&mut self,"@,
    ) + line(k + 1, "this_object_id: ObjectId,"@) + line(k + 1, "socket: &mut ClientSocket,"@);
    request.arguments.fold_left(start, output_argument_step(k + 1)) + line(k, ") -> Task;"@)
}

pub open spec fn request_step(k: nat) -> spec_fn(Seq<char>, MessageView) -> Seq<char> {
    |out: Seq<char>, request: MessageView| request_text(out, k, request)
}

/// Text of the `Interface` trait with a handler for each request.
pub open spec fn interface_text(out: Seq<char>, j: nat, interface: InterfaceView) -> Seq<char> {
    let start = out + nl() + line(j, "pub trait Interface {"@);
    interface.requests.fold_left(start, request_step(j + 1)) + line(j, "}"@)
}


/// Whether code can be generated for the interface: requests with an array argument cannot be
/// read yet, and every message must have a size that fits in memory.
pub open spec fn generatable(interface: InterfaceView) -> bool {
    &&& forall|r: int|
        0 <= r < interface.requests.len() ==> !(#[trigger] has_type(
            interface.requests[r].arguments,
            RustType::Array,
        ))
    &&& forall|e: int|
        0 <= e < interface.events.len() ==> 8 + 4 * (#[trigger] interface.events[e]).arguments.len()
            <= usize::MAX
}

// ------------------------------------------------------------------------------------------------
// Text of the log statement of a request or event.

/// Format of one argument in a log line.
pub open spec fn log_argument_text(out: Seq<char>, argument: ArgumentView) -> Seq<char> {
    if argument.rust_type == RustType::String {
        out + argument.name + ": '{}', "@
    } else {
        out + argument.name + ": {:?}, "@
    }
}

pub open spec fn log_argument_step() -> spec_fn(Seq<char>, ArgumentView) -> Seq<char> {
    |out: Seq<char>, argument: ArgumentView| log_argument_text(out, argument)
}

/// An argument passed on as a value: its name and a comma on a line.
pub open spec fn argument_value_text(out: Seq<char>, k: nat, argument: ArgumentView) -> Seq<char> {
    out + indent_text(k) + argument.name + ",\n"@
}

pub open spec fn argument_value_step(k: nat) -> spec_fn(Seq<char>, ArgumentView) -> Seq<char> {
    |out: Seq<char>, argument: ArgumentView| argument_value_text(out, k, argument)
}

/// Text of the statement that logs a request (incoming) or an event (outgoing) with its
/// arguments.
pub open spec fn log_text(
    out: Seq<char>,
    m: nat,
    incoming: bool,
    protocol_name: Seq<char>,
    interface_name: Seq<char>,
    method_name: Seq<char>,
    arguments: Seq<ArgumentView>,
) -> Seq<char> {
    let head = out + line(m, "if let Some(_logger) = _socket.get_logger() {"@) + indent_text(m + 1)
        + "_logger(format!(\""@ + (if incoming {
        "--> "@
    } else {
        " <-- "@
    }) + protocol_name + "::"@ + interface_name + "@{}."@ + method_name + "("@;
    let listed = arguments.fold_left(head, log_argument_step());
    let trimmed = if arguments.len() > 0 {
        drop_end(listed, 2)
    } else {
        listed
    };
    let object = if incoming {
        "_header.object_id,"@
    } else {
        "_id,"@
    };
    let values = arguments.fold_left(
        trimmed + ")\",\n"@ + line(m + 2, object),
        argument_value_step(m + 2),
    );
    values + line(m + 1, "));"@) + line(m, "}"@)
}

// ------------------------------------------------------------------------------------------------
// Text of an event.

/// Declaration of the length, size and padding of a variable-sized argument.
pub open spec fn size_declaration_text(
    out: Seq<char>,
    m: nat,
    variable: (Seq<char>, RustType),
) -> Seq<char> {
    let name = variable.0;
    if variable.1 == RustType::String {
        out + indent_text(m) + "let _"@ + name + "_len = "@ + name + ".len();"@ + nl()
            + indent_text(m) + "let _"@ + name + "_size = (_"@ + name + "_len / 4) * 4 + 4;"@
            + nl() + indent_text(m) + "let _"@ + name + "_padding = _"@ + name + "_size - _"@
            + name + "_len;"@ + nl()
    } else {
        out + indent_text(m) + "let _"@ + name + "_len = "@ + name + ".len();"@ + nl()
            + indent_text(m) + "let _"@ + name + "_size = 4 * _"@ + name + "_len;"@ + nl()
            + indent_text(m)
    }
}

pub open spec fn size_declaration_step(m: nat) -> spec_fn(Seq<char>, (Seq<char>, RustType)) -> Seq<
    char,
> {
    |out: Seq<char>, variable: (Seq<char>, RustType)| size_declaration_text(out, m, variable)
}

/// The term a variable-sized argument adds to the message length.
pub open spec fn size_term_text(out: Seq<char>, variable: (Seq<char>, RustType)) -> Seq<char> {
    out + " + _"@ + variable.0 + "_size"@
}

pub open spec fn size_term_step() -> spec_fn(Seq<char>, (Seq<char>, RustType)) -> Seq<char> {
    |out: Seq<char>, variable: (Seq<char>, RustType)| size_term_text(out, variable)
}

/// Declaration of the byte buffer of a message: an array when its size is constant, a vector
/// of computed length otherwise.
pub open spec fn buffer_declaration_text(
    out: Seq<char>,
    m: nat,
    arguments: Seq<ArgumentView>,
) -> Seq<char> {
    let names = variable_names(arguments);
    let size = decimal(constant_size(arguments) as nat);
    if names.len() == 0 {
        out + indent_text(m) + "let mut _bytes: [u8; "@ + size
            + "] = unsafe { std::mem::uninitialized() };"@ + nl()
    } else {
        names.fold_left(out, size_declaration_step(m)) + indent_text(m) + "let _msg_len = "@ + size
            + names.fold_left(Seq::empty(), size_term_step()) + ";"@ + nl() + line(
            m,
            "let mut _bytes = Vec::<u8>::with_capacity(_msg_len);"@,
        ) + line(m, "unsafe { _bytes.set_len(_msg_len); }"@)
    }
}

/// Declaration of the array of file descriptors of a message, if it sends any.
pub open spec fn fds_declaration_text(out: Seq<char>, m: nat, arguments: Seq<ArgumentView>) -> Seq<
    char,
> {
    let count = fd_count(arguments);
    if count > 0 {
        out + line(m, "let mut _fds_pos = 0;"@) + indent_text(m) + "let mut _fds: [RawFd; "@
            + decimal(count) + "] = unsafe { std::mem::uninitialized() };"@ + nl()
    } else {
        out
    }
}

/// Creation of the cursor and writing of the message header.
pub open spec fn header_text(
    out: Seq<char>,
    k: nat,
    opcode: u16,
    arguments: Seq<ArgumentView>,
) -> Seq<char> {
    let constant = variable_names(arguments).len() == 0;
    let a = if constant {
        out + line(k, "let mut _bytes_buf = std::io::Cursor::new(&mut _bytes[..]);"@)
    } else {
        out + line(k, "let mut _bytes_buf = std::io::Cursor::new(_bytes.as_mut_slice());"@)
    };
    let b = a + line(k, "_bytes_buf.write_u32::<NativeEndian>(_id.get_value())?;"@) + indent_text(
        k,
    ) + "_bytes_buf.write_u16::<NativeEndian>("@ + decimal(opcode as nat) + ")?;"@ + nl();
    if constant {
        b + indent_text(k) + "_bytes_buf.write_u16::<NativeEndian>("@ + decimal(
            constant_size(arguments) as nat,
        ) + ")?;"@ + nl()
    } else {
        b + line(k, "_bytes_buf.write_u16::<NativeEndian>(_msg_len as u16)?;"@)
    }
}

/// Writing of one argument into the message.
pub open spec fn write_argument_text(out: Seq<char>, k: nat, argument: ArgumentView) -> Seq<char> {
    let name = argument.name;
    match argument.rust_type {
        RustType::Object => out + indent_text(k) + "_bytes_buf.write_u32::<NativeEndian>("@ + name
            + ".get_value())?;"@ + nl(),
        RustType::NewId => out + indent_text(k) + "_bytes_buf.write_u32::<NativeEndian>("@ + name
            + ".get_value())?;"@ + nl(),
        RustType::UInt => out + indent_text(k) + "_bytes_buf.write_u32::<NativeEndian>("@ + name
            + ")?;"@ + nl(),
        RustType::Int => out + indent_text(k) + "_bytes_buf.write_i32::<NativeEndian>("@ + name
            + ")?;"@ + nl(),
        RustType::Fixed => out + indent_text(k) + "_bytes_buf.write_i32::<NativeEndian>((("@ + name
            + " as f64) * 256.0) as i32"@ + ")?;"@ + nl(),
        RustType::String => out + indent_text(k) + "_bytes_buf.write_u32::<NativeEndian>(_"@ + name
            + "_len as u32 + 1)?;"@ + nl() + indent_text(k) + "_bytes_buf.write("@ + name
            + ".as_bytes())?;"@ + nl() + indent_text(k) + "for _ in 0..(_"@ + name
            + "_padding) {"@ + nl() + line(k + 1, "_bytes_buf.write_u8(0)?;"@) + line(k, "}"@),
        RustType::Array => out + indent_text(k) + "_bytes_buf.write_u32::<NativeEndian>(_"@ + name
            + "_size as u32)?;"@ + nl() + indent_text(k) + "for &_e in "@ + name + " {"@ + nl()
            + line(k + 1, "_bytes_buf.write_u32::<NativeEndian>(_e)?;"@) + line(k, "}"@),
        RustType::FD => out + indent_text(k) + "_fds[_fds_pos] = "@ + name + ";"@ + nl() + line(
            k,
            "_fds_pos += 1;"@,
        ),
    }
}

pub open spec fn write_argument_step(k: nat) -> spec_fn(Seq<char>, ArgumentView) -> Seq<char> {
    |out: Seq<char>, argument: ArgumentView| write_argument_text(out, k, argument)
}

/// Body of the function sending an event: builds the message and writes it to the socket.
pub open spec fn event_body_text(out: Seq<char>, m: nat, event: MessageView) -> Seq<char> {
    let arguments = event.arguments;
    let a = fds_declaration_text(buffer_declaration_text(out, m, arguments), m, arguments);
    let b = header_text(a + line(m, "{"@), m + 1, event.opcode, arguments);
    let c = arguments.fold_left(b, write_argument_step(m + 1)) + line(m, "}"@);
    let d = if fd_count(arguments) > 0 {
        c + line(m, "_socket.write_with_control_data(&_bytes[..], &_fds[..])?;"@)
    } else {
        c + line(m, "_socket.write(&_bytes[..])?;"@)
    };
    d + line(m, "Ok(())"@)
}

/// Text of an argument of a function sending an event, with its summary as a comment.
pub open spec fn input_argument_text(out: Seq<char>, k: nat, argument: ArgumentView) -> Seq<char> {
    let a = out + indent_text(k) + argument.name + ": "@ + argument.rust_type.spec_input_str()
        + ","@;
    let b = match argument.description {
        Some(description) => a + " // "@ + description,
        None => a,
    };
    b + nl()
}

pub open spec fn input_argument_step(k: nat) -> spec_fn(Seq<char>, ArgumentView) -> Seq<char> {
    |out: Seq<char>, argument: ArgumentView| input_argument_text(out, k, argument)
}

/// Text of the function sending an event.
pub open spec fn event_text(
    out: Seq<char>,
    k: nat,
    protocol_name: Seq<char>,
    interface_name: Seq<char>,
    event: MessageView,
) -> Seq<char> {
    let a = out + nl() + indent_text(k) + "pub fn "@ + event.name + " (\n"@ + line(
        k + 1,
        "_socket: &ClientSocket,"@,
    ) + line(k + 1, "_id: ObjectId,"@);
    let b = event.arguments.fold_left(a, input_argument_step(k + 1)) + line(
        k,
        ") -> Result<(), SkylaneError> {"@,
    );
    let c = log_text(b, k + 1, false, protocol_name, interface_name, event.name, event.arguments);
    event_body_text(c, k + 1, event) + line(k, "}"@)
}

pub open spec fn event_step(k: nat, protocol_name: Seq<char>, interface_name: Seq<char>) -> spec_fn(
    Seq<char>,
    MessageView,
) -> Seq<char> {
    |out: Seq<char>, event: MessageView| event_text(out, k, protocol_name, interface_name, event)
}

// ------------------------------------------------------------------------------------------------
// Text of the dispatcher.

/// Reading of one argument of a request from the message.
pub open spec fn read_argument_text(out: Seq<char>, k: nat, argument: ArgumentView) -> Seq<char> {
    let n = argument.name;
    match argument.rust_type {
        RustType::Object => out + indent_text(k) + "let "@ + n
            + " = ObjectId::new(_bytes_buf.read_u32::<NativeEndian>()?);\n"@,
        RustType::NewId => out + indent_text(k) + "let "@ + n
            + " = ObjectId::new(_bytes_buf.read_u32::<NativeEndian>()?);\n"@,
        RustType::UInt => out + indent_text(k) + "let "@ + n
            + " = _bytes_buf.read_u32::<NativeEndian>()?;\n"@,
        RustType::Int => out + indent_text(k) + "let "@ + n
            + " = _bytes_buf.read_i32::<NativeEndian>()?;\n"@,
        RustType::Fixed => out + indent_text(k) + "let "@ + n
            + " = (_bytes_buf.read_i32::<NativeEndian>()? as f64) * 0.00390625;\n"@,
        RustType::String => out + indent_text(k) + "let _"@ + n
            + "_len = _bytes_buf.read_u32::<NativeEndian>()? - 1;\n"@ + indent_text(k) + "let _"@
            + n + "_size = (_"@ + n + "_len / 4) * 4 + 4;\n"@ + indent_text(k) + "let _"@ + n
            + "_padding = _"@ + n + "_size - _"@ + n + "_len;\n"@ + indent_text(k) + "let mut "@
            + n + " = String::with_capacity(_"@ + n + "_len as usize);\n"@ + indent_text(k)
            + "for _ in 0 .. _"@ + n + "_len {\n"@ + line(k + 1, "let c = _bytes_buf.read_u8()?;"@)
            + indent_text(k + 1) + "if c != 0 { "@ + n + ".push(c as char) }\n"@ + indent_text(k)
            + "}\n"@ + indent_text(k) + "for _ in 0 .. _"@ + n + "_padding {\n"@ + line(
            k + 1,
            "let _ = _bytes_buf.read_u8()?;"@,
        ) + indent_text(k) + "}\n"@,
        RustType::Array => out,
        RustType::FD => out + indent_text(k) + "let "@ + n
            + " = _fds_buf.read_i32::<NativeEndian>()?;\n"@,
    }
}

/// Ten to the power `n`.
pub open spec fn power_of_ten(n: nat) -> nat
    decreases n,
{
    if n == 0 {
        1
    } else {
        10 * power_of_ten((n - 1) as nat)
    }
}

/// The digits after the point of 1/256 in decimal, `0.00390625`: times 256 they make 10^8.
proof fn lemma_digits_of_a_256th()
    ensures
        digits_value(seq!['0', '0', '3', '9', '0', '6', '2', '5']) * 256 == power_of_ten(8),
{
    let d0: Seq<char> = Seq::empty();
    let d1 = d0.push('0');
    let d2 = d1.push('0');
    let d3 = d2.push('3');
    let d4 = d3.push('9');
    let d5 = d4.push('0');
    let d6 = d5.push('6');
    let d7 = d6.push('2');
    let d8 = d7.push('5');
    assert(d1.drop_last() =~= d0);
    assert(d2.drop_last() =~= d1);
    assert(d3.drop_last() =~= d2);
    assert(d4.drop_last() =~= d3);
    assert(d5.drop_last() =~= d4);
    assert(d6.drop_last() =~= d5);
    assert(d7.drop_last() =~= d6);
    assert(d8.drop_last() =~= d7);
    assert(digits_value(d0) == 0);
    assert(digits_value(d1) == 0);
    assert(digits_value(d2) == 0);
    assert(digits_value(d3) == 3);
    assert(digits_value(d4) == 39);
    assert(digits_value(d5) == 390);
    assert(digits_value(d6) == 3906);
    assert(digits_value(d7) == 39062);
    assert(digits_value(d8) == 390625);
    assert(d8 =~= seq!['0', '0', '3', '9', '0', '6', '2', '5']);
    reveal_with_fuel(power_of_ten, 9);
}

/// The decoding of a fixed-point argument, split at the digits after the point.
#[verifier::rlimit(40)]
proof fn lemma_fixed_point_decoding_text(d: Seq<char>)
    requires
        d == seq!['0', '0', '3', '9', '0', '6', '2', '5'],
    ensures
        " = (_bytes_buf.read_i32::<NativeEndian>()? as f64) * 0.00390625;\n"@ == " = (_bytes_buf.read_i32::<NativeEndian>()? as f64) * 0."@
            + d + ";\n"@,
{
    reveal_strlit(" = (_bytes_buf.read_i32::<NativeEndian>()? as f64) * 0.00390625;\n");
    reveal_strlit(" = (_bytes_buf.read_i32::<NativeEndian>()? as f64) * 0.");
    reveal_strlit(";\n");
    assert(" = (_bytes_buf.read_i32::<NativeEndian>()? as f64) * 0.00390625;\n"@ =~= " = (_bytes_buf.read_i32::<NativeEndian>()? as f64) * 0."@
        + d + ";\n"@);
}

/// A fixed-point argument travels as a signed 32-bit number of 1/256ths (Wayland's 24.8 format):
/// the dispatcher decodes it by multiplying the value read by a decimal fraction `0.d` that is
/// exactly 1/256 (`d * 256` is a power of ten), and the code sending an event encodes it by
/// multiplying by 256, so that decoding undoes encoding.
pub proof fn lemma_fixed_point_decoding_inverts_encoding(out: Seq<char>, k: nat, argument: ArgumentView)
    requires
        argument.rust_type == RustType::Fixed,
    ensures
        exists|d: Seq<char>|
            {
                &&& read_argument_text(out, k, argument) == out + indent_text(k) + "let "@
                    + argument.name + " = (_bytes_buf.read_i32::<NativeEndian>()? as f64) * 0."@
                    + d + ";\n"@
                &&& forall|i: int| 0 <= i < d.len() ==> is_digit(#[trigger] d[i])
                &&& digits_value(d) * 256 == power_of_ten(d.len())
            },
        write_argument_text(out, k, argument) == out + indent_text(k)
            + "_bytes_buf.write_i32::<NativeEndian>((("@ + argument.name + " as f64) * 256.0) as i32"@
            + ")?;"@ + nl(),
{
    let d = seq!['0', '0', '3', '9', '0', '6', '2', '5'];
    lemma_fixed_point_decoding_text(d);
    lemma_digits_of_a_256th();
    assert(d.len() == 8);
    assert(forall|i: int| 0 <= i < d.len() ==> is_digit(#[trigger] d[i]));
    assert(read_argument_text(out, k, argument) =~= out + indent_text(k) + "let "@ + argument.name
        + " = (_bytes_buf.read_i32::<NativeEndian>()? as f64) * 0."@ + d + ";\n"@);
}

pub open spec fn read_argument_step(k: nat) -> spec_fn(Seq<char>, ArgumentView) -> Seq<char> {
    |out: Seq<char>, argument: ArgumentView| read_argument_text(out, k, argument)
}

/// The match arm of the dispatcher handling a request: reads the arguments, logs the request and
/// calls its handler.
pub open spec fn request_case_text(
    out: Seq<char>,
    k: nat,
    protocol_name: Seq<char>,
    interface_name: Seq<char>,
    request: MessageView,
) -> Seq<char> {
    let a = out + indent_text(k) + decimal(request.opcode as nat) + " => {"@ + nl();
    let b = request.arguments.fold_left(a, read_argument_step(k + 1));
    let c = log_text(
        b,
        k + 1,
        true,
        protocol_name,
        interface_name,
        request.name,
        request.arguments,
    );
    let d = c + indent_text(k + 1) + "Ok( _object."@ + valid_name(request.name) + " ("@ + nl()
        + line(k + 2, "ObjectId::new(_header.object_id),"@) + line(k + 2, "_socket,"@);
    request.arguments.fold_left(d, argument_value_step(k + 2)) + line(k + 1, "))"@) + line(
        k,
        "}"@,
    )
}

pub open spec fn request_case_step(
    k: nat,
    protocol_name: Seq<char>,
    interface_name: Seq<char>,
) -> spec_fn(Seq<char>, MessageView) -> Seq<char> {
    |out: Seq<char>, request: MessageView|
        request_case_text(out, k, protocol_name, interface_name, request)
}

/// Text of the dispatcher, which decodes requests by their opcode.
/// Text opening the dispatcher: its structure and the head of its `dispatch` function, up to the
/// match on the opcode.
pub open spec fn dispatcher_head_text(out: Seq<char>, m: nat) -> Seq<char> {
    out + nl() + line(m, "pub struct Dispatcher {}"@) + nl() + line(
        m,
        "impl<I: Interface> Disp<I> for Dispatcher {"@,
    ) + line(m + 1, "fn new() -> Self {"@) + line(m + 2, "Dispatcher {}"@) + line(m + 1, "}"@)
        + nl() + line(m + 1, "fn dispatch ("@) + line(m + 2, "&mut self,"@) + line(
        m + 2,
        "_object: &mut I,"@,
    ) + line(m + 2, "_socket: &mut ClientSocket,"@) + line(m + 2, "_header: &Header,"@) + line(
        m + 2,
        "_bytes_buf: &mut std::io::Cursor<&[u8]>,"@,
    ) + line(m + 2, "_fds_buf: &mut std::io::Cursor<&[u8]>,"@) + line(
        m + 1,
        ") -> Result<Task, SkylaneError> {"@,
    ) + line(m + 2, "match _header.opcode {"@)
}

/// Text closing the dispatcher: the case of an unknown opcode and the closing braces.
pub open spec fn dispatcher_tail_text(out: Seq<char>, m: nat) -> Seq<char> {
    out + line(m + 3, "_ => {"@) + line(
        m + 4,
        "Err(SkylaneError::WrongOpcode { name: NAME, object_id: _header.object_id, opcode: _header.opcode })"@,
    ) + line(m + 3, "}"@) + line(m + 2, "}"@) + line(m + 1, "}"@) + line(m, "}"@)
}

/// Text of the dispatcher of an interface: one case for each request, in order.
pub open spec fn dispatcher_text(
    out: Seq<char>,
    m: nat,
    protocol_name: Seq<char>,
    interface: InterfaceView,
) -> Seq<char> {
    let a = dispatcher_head_text(out, m);
    let b = interface.requests.fold_left(a, request_case_step(m + 3, protocol_name, interface.name));
    dispatcher_tail_text(b, m)
}

// ------------------------------------------------------------------------------------------------
// Text of a whole protocol.

/// Text of the module of an interface.
pub open spec fn module_text(
    out: Seq<char>,
    i: nat,
    protocol_name: Seq<char>,
    interface: InterfaceView,
) -> Seq<char> {
    let j = i + 1;
    let a = module_start_text(out, i, interface);
    let b = interface.enums.fold_left(a, enum_step(j));
    let c = interface_text(b, j, interface);
    let d = interface.events.fold_left(c, event_step(j, protocol_name, interface.name));
    dispatcher_text(d, j, protocol_name, interface) + line(i, "}"@)
}

pub open spec fn module_step(i: nat, protocol_name: Seq<char>) -> spec_fn(
    Seq<char>,
    InterfaceView,
) -> Seq<char> {
    |out: Seq<char>, interface: InterfaceView| module_text(out, i, protocol_name, interface)
}

/// Name of the protocol, empty when the definition does not give one.
pub open spec fn protocol_name(document: DocumentView) -> Seq<char> {
    match document.protocol {
        Some(name) => name,
        None => Seq::empty(),
    }
}

/// Server code for a protocol definition: a module for each interface.
pub open spec fn server_text(out: Seq<char>, i: nat, document: DocumentView) -> Seq<char> {
    document.interfaces.fold_left(out, module_step(i, protocol_name(document)))
}

// ------------------------------------------------------------------------------------------------

/// Generator for server-side code.
pub struct ServerGenerator {
    buffer: Buffer,
}

impl ServerGenerator {
    /// Current level of indentation.
    pub closed spec fn spec_indent(&self) -> nat {
        self.buffer.spec_indent() as nat
    }

    /// Text generated so far.
    pub closed spec fn spec_content(&self) -> Seq<char> {
        self.buffer.spec_content()
    }

    /// Creates new `ServerGenerator`.
    pub fn new(indent: u32) -> (result: Self)
        ensures
            result.spec_indent() == indent,
            result.spec_content() == Seq::<char>::empty(),
    {
        ServerGenerator { buffer: Buffer::new(indent) }
    }

    fn generate_module(&mut self, protocol_name: &str, interface: &Interface)
        requires
            old(self).spec_indent() + 7 <= u32::MAX,
            generatable(interface@),
        ensures
            final(self).spec_indent() == old(self).spec_indent(),
            final(self).spec_content() == module_text(
                old(self).spec_content(),
                old(self).spec_indent(),
                protocol_name@,
                interface@,
            ),
    {
        self.generate_module_start(interface);
        self.generate_enums(interface);
        self.generate_interface(interface);
        self.generate_events(protocol_name, interface);
        self.generate_dispatcher(protocol_name, interface);
        self.generate_module_end();
    }

    /// Returns generated code as string basing on protocol description.
    pub fn generate(&mut self, document: &Document) -> (result: String)
        requires
            old(self).spec_indent() + 7 <= u32::MAX,
            forall|i: int|
                0 <= i < document@.interfaces.len() ==> generatable(
                    #[trigger] document@.interfaces[i],
                ),
        ensures
            final(self).spec_indent() == old(self).spec_indent(),
            final(self).spec_content() == server_text(
                old(self).spec_content(),
                old(self).spec_indent(),
                document@,
            ),
            result@ == final(self).spec_content(),
    {
        let protocol_name = match &document.protocol.text {
            Some(name) => name.clone(),
            None => String::new(),
        };
        let ghost name = protocol_name@;
        assert(name == crate::scanner::generator::protocol_name(document@));
        let ghost interfaces = document@.interfaces;
        let ghost i0 = self.spec_indent();
        let mut i: usize = 0;
        while i < document.interfaces.len()
            invariant
                i <= document.interfaces.len(),
                interfaces == document@.interfaces,
                name == protocol_name@,
                i0 == old(self).spec_indent(),
                self.spec_indent() == i0,
                i0 + 7 <= u32::MAX,
                forall|k: int|
                    0 <= k < interfaces.len() ==> generatable(#[trigger] interfaces[k]),
                self.spec_content() == interfaces.take(i as int).fold_left(
                    old(self).spec_content(),
                    module_step(i0, name),
                ),
            decreases document.interfaces.len() - i,
        {
            proof {
                lemma_fold_take(interfaces, old(self).spec_content(), module_step(i0, name), i as int);
                assert(interfaces[i as int] == document.interfaces@[i as int]@);
            }
            self.generate_module(protocol_name.as_str(), &document.interfaces[i]);
            i = i + 1;
        }
        proof {
            lemma_fold_take_all(interfaces, old(self).spec_content(), module_step(i0, name));
        }
        self.buffer.get_content().clone()
    }

    fn generate_events(&mut self, protocol_name: &str, interface: &Interface)
        requires
            old(self).spec_indent() + 3 <= u32::MAX,
            generatable(interface@),
        ensures
            final(self).spec_indent() == old(self).spec_indent(),
            final(self).spec_content() == interface@.events.fold_left(
                old(self).spec_content(),
                event_step(old(self).spec_indent(), protocol_name@, interface@.name),
            ),
    {
        let ghost events = interface@.events;
        let ghost k = self.spec_indent();
        let ghost step = event_step(k, protocol_name@, interface@.name);
        let mut i: usize = 0;
        while i < interface.events.len()
            invariant
                i <= interface.events.len(),
                events == interface@.events,
                generatable(interface@),
                k == old(self).spec_indent(),
                step == event_step(k, protocol_name@, interface@.name),
                self.spec_indent() == k,
                k + 3 <= u32::MAX,
                self.spec_content() == events.take(i as int).fold_left(
                    old(self).spec_content(),
                    step,
                ),
            decreases interface.events.len() - i,
        {
            let event = &interface.events[i];
            proof {
                lemma_fold_take(events, old(self).spec_content(), step, i as int);
                assert(event@ == events[i as int]);
            }
            self.generate_event_start(event.name.as_str());
            let mut a: usize = 0;
            let ghost start = self.spec_content();
            while a < event.arguments.len()
                invariant
                    a <= event.arguments.len(),
                    event@ == events[i as int],
                    self.spec_indent() == k + 1,
                    self.spec_content() == event@.arguments.take(a as int).fold_left(
                        start,
                        input_argument_step(k + 1),
                    ),
                decreases event.arguments.len() - a,
            {
                proof {
                    lemma_fold_take(event@.arguments, start, input_argument_step(k + 1), a as int);
                }
                self.generate_input_argument(&event.arguments[a]);
                a = a + 1;
            }
            proof {
                lemma_fold_take_all(event@.arguments, start, input_argument_step(k + 1));
            }
            self.generate_event_middle();
            self.generate_log(
                false,
                protocol_name,
                interface.name.as_str(),
                event.name.as_str(),
                &event.arguments,
            );
            self.generate_event_body(event);
            self.generate_event_end();
            i = i + 1;
        }
        proof {
            lemma_fold_take_all(events, old(self).spec_content(), step);
        }
    }

    fn generate_event_start(&mut self, name: &str)
        requires
            old(self).spec_indent() + 1 <= u32::MAX,
        ensures
            final(self).spec_indent() == old(self).spec_indent() + 1,
            final(self).spec_content() == old(self).spec_content() + nl() + indent_text(
                old(self).spec_indent(),
            ) + "pub fn "@ + name@ + " (\n"@ + line(
                old(self).spec_indent() + 1,
                "_socket: &ClientSocket,"@,
            ) + line(old(self).spec_indent() + 1, "_id: ObjectId,"@),
    {
        self.buffer.push_end_of_line();
        self.buffer.push_indent();
        self.buffer.push("pub fn ");
        self.buffer.push(name);
        self.buffer.push(" (\n");
        self.buffer.increase_indent();
        self.buffer.push_line("_socket: &ClientSocket,");
        self.buffer.push_line("_id: ObjectId,");
    }

    fn generate_event_middle(&mut self)
        requires
            old(self).spec_indent() >= 1,
        ensures
            final(self).spec_indent() == old(self).spec_indent(),
            final(self).spec_content() == old(self).spec_content() + line(
                (old(self).spec_indent() - 1) as nat,
                ") -> Result<(), SkylaneError> {"@,
            ),
    {
        self.buffer.decrease_indent();
        self.buffer.push_line(") -> Result<(), SkylaneError> {");
        self.buffer.increase_indent();
    }

    fn generate_event_end(&mut self)
        requires
            old(self).spec_indent() >= 1,
        ensures
            final(self).spec_indent() == old(self).spec_indent() - 1,
            final(self).spec_content() == old(self).spec_content() + line(
                (old(self).spec_indent() - 1) as nat,
                "}"@,
            ),
    {
        self.buffer.decrease_indent();
        self.buffer.push_line("}");
    }

    fn generate_input_argument(&mut self, argument: &Argument)
        ensures
            final(self).spec_indent() == old(self).spec_indent(),
            final(self).spec_content() == input_argument_text(
                old(self).spec_content(),
                old(self).spec_indent(),
                argument@,
            ),
    {
        self.buffer.push_indent();
        self.buffer.push(argument.name.as_str());
        self.buffer.push(": ");
        self.buffer.push(argument.rust_type.to_input_str());
        self.buffer.push(",");
        if let Some(description) = &argument.description.text {
            self.buffer.push(" // ");
            self.buffer.push(description.as_str());
        }
        self.buffer.push_end_of_line();
    }

    fn generate_log(
        &mut self,
        incoming: bool,
        protocol_name: &str,
        interface_name: &str,
        method_name: &str,
        arguments: &Vec<Argument>,
    )
        requires
            old(self).spec_indent() + 2 <= u32::MAX,
        ensures
            final(self).spec_indent() == old(self).spec_indent(),
            final(self).spec_content() == log_text(
                old(self).spec_content(),
                old(self).spec_indent(),
                incoming,
                protocol_name@,
                interface_name@,
                method_name@,
                arguments_view(arguments@),
            ),
    {
        let ghost m = self.spec_indent();
        let ghost views = arguments_view(arguments@);
        self.buffer.push_line("if let Some(_logger) = _socket.get_logger() {");
        self.buffer.increase_indent();
        self.buffer.push_indent();
        self.buffer.push("_logger(format!(\"");
        if incoming {
            self.buffer.push("--> ");
        } else {
            self.buffer.push(" <-- ");
        }
        self.buffer.push(protocol_name);
        self.buffer.push("::");
        self.buffer.push(interface_name);
        self.buffer.push("@{}.");
        self.buffer.push(method_name);
        self.buffer.push("(");
        let ghost head = self.spec_content();
        let mut a: usize = 0;
        while a < arguments.len()
            invariant
                a <= arguments.len(),
                views == arguments_view(arguments@),
                self.spec_indent() == m + 1,
                self.spec_content() == views.take(a as int).fold_left(head, log_argument_step()),
            decreases arguments.len() - a,
        {
            proof {
                lemma_fold_take(views, head, log_argument_step(), a as int);
            }
            let argument = &arguments[a];
            self.buffer.push(argument.name.as_str());
            match argument.rust_type {
                RustType::String => {
                    self.buffer.push(": '{}', ");
                },
                _ => {
                    self.buffer.push(": {:?}, ");
                },
            }
            a = a + 1;
        }
        proof {
            lemma_fold_take_all(views, head, log_argument_step());
        }
        if arguments.len() > 0 {
            self.buffer.pop(2);
        }
        self.buffer.push(")\",\n");
        self.buffer.increase_indent();
        if incoming {
            self.buffer.push_line("_header.object_id,");
        } else {
            self.buffer.push_line("_id,");
        }
        let ghost start = self.spec_content();
        let mut a: usize = 0;
        while a < arguments.len()
            invariant
                a <= arguments.len(),
                views == arguments_view(arguments@),
                self.spec_indent() == m + 2,
                self.spec_content() == views.take(a as int).fold_left(
                    start,
                    argument_value_step(m + 2),
                ),
            decreases arguments.len() - a,
        {
            proof {
                lemma_fold_take(views, start, argument_value_step(m + 2), a as int);
            }
            self.buffer.push_indent();
            self.buffer.push(arguments[a].name.as_str());
            self.buffer.push(",\n");
            a = a + 1;
        }
        proof {
            lemma_fold_take_all(views, start, argument_value_step(m + 2));
        }
        self.buffer.decrease_indent();
        self.buffer.push_line("));");
        self.buffer.decrease_indent();
        self.buffer.push_line("}");
    }

    fn generate_size_declaration(&mut self, variable: &VariableType)
        ensures
            final(self).spec_indent() == old(self).spec_indent(),
            final(self).spec_content() == size_declaration_text(
                old(self).spec_content(),
                old(self).spec_indent(),
                variable_view(*variable),
            ),
    {
        match variable {
            VariableType::String(name) => {
                self.buffer.push_indent();
                self.buffer.push("let _");
                self.buffer.push(name.as_str());
                self.buffer.push("_len = ");
                self.buffer.push(name.as_str());
                self.buffer.push(".len();");
                self.buffer.push_end_of_line();
                self.buffer.push_indent();
                self.buffer.push("let _");
                self.buffer.push(name.as_str());
                self.buffer.push("_size = (_");
                self.buffer.push(name.as_str());
                self.buffer.push("_len / 4) * 4 + 4;");
                self.buffer.push_end_of_line();
                self.buffer.push_indent();
                self.buffer.push("let _");
                self.buffer.push(name.as_str());
                self.buffer.push("_padding = _");
                self.buffer.push(name.as_str());
                self.buffer.push("_size - _");
                self.buffer.push(name.as_str());
                self.buffer.push("_len;");
                self.buffer.push_end_of_line();
            },
            VariableType::Array(name) => {
                self.buffer.push_indent();
                self.buffer.push("let _");
                self.buffer.push(name.as_str());
                self.buffer.push("_len = ");
                self.buffer.push(name.as_str());
                self.buffer.push(".len();");
                self.buffer.push_end_of_line();
                self.buffer.push_indent();
                self.buffer.push("let _");
                self.buffer.push(name.as_str());
                self.buffer.push("_size = 4 * _");
                self.buffer.push(name.as_str());
                self.buffer.push("_len;");
                self.buffer.push_end_of_line();
                self.buffer.push_indent();
            },
        }
    }

    fn generate_buffer_declaration(&mut self, arguments: &Vec<Argument>, message_size: &MessageSize)
        requires
            message_size.size == constant_size(arguments_view(arguments@)),
            message_size.spec_names() == variable_names(arguments_view(arguments@)),
        ensures
            final(self).spec_indent() == old(self).spec_indent(),
            final(self).spec_content() == buffer_declaration_text(
                old(self).spec_content(),
                old(self).spec_indent(),
                arguments_view(arguments@),
            ),
    {
        let ghost m = self.spec_indent();
        let size = u64_to_string(message_size.size as u64);
        if message_size.is_constant() {
            self.buffer.push_indent();
            self.buffer.push("let mut _bytes: [u8; ");
            self.buffer.push(size.as_str());
            self.buffer.push("] = unsafe { std::mem::uninitialized() };");
            self.buffer.push_end_of_line();
        } else {
            let ghost names = message_size.spec_names();
            let ghost start = self.spec_content();
            let mut sizes = String::new();
            let mut i: usize = 0;
            while i < message_size.names.len()
                invariant
                    i <= message_size.names.len(),
                    names == message_size.spec_names(),
                    self.spec_indent() == m,
                    self.spec_content() == names.take(i as int).fold_left(
                        start,
                        size_declaration_step(m),
                    ),
                    sizes@ == names.take(i as int).fold_left(Seq::<char>::empty(), size_term_step()),
                decreases message_size.names.len() - i,
            {
                let variable = &message_size.names[i];
                proof {
                    lemma_fold_take(names, start, size_declaration_step(m), i as int);
                    lemma_fold_take(names, Seq::<char>::empty(), size_term_step(), i as int);
                    assert(names[i as int] == variable_view(*variable));
                }
                self.generate_size_declaration(variable);
                let name = match variable {
                    VariableType::String(name) => name,
                    VariableType::Array(name) => name,
                };
                sizes.append(" + _");
                sizes.append(name.as_str());
                sizes.append("_size");
                i = i + 1;
            }
            proof {
                lemma_fold_take_all(names, start, size_declaration_step(m));
                lemma_fold_take_all(names, Seq::<char>::empty(), size_term_step());
            }
            self.buffer.push_indent();
            self.buffer.push("let _msg_len = ");
            self.buffer.push(size.as_str());
            self.buffer.push(sizes.as_str());
            self.buffer.push(";");
            self.buffer.push_end_of_line();
            self.buffer.push_line("let mut _bytes = Vec::<u8>::with_capacity(_msg_len);");
            self.buffer.push_line("unsafe { _bytes.set_len(_msg_len); }");
        }
    }

    fn generate_fds_declaration(&mut self, event: &Event)
        ensures
            final(self).spec_indent() == old(self).spec_indent(),
            final(self).spec_content() == fds_declaration_text(
                old(self).spec_content(),
                old(self).spec_indent(),
                event@.arguments,
            ),
    {
        let fd_count = Self::count_raw_fds(event);
        if fd_count > 0 {
            self.buffer.push_line("let mut _fds_pos = 0;");
            self.buffer.push_indent();
            self.buffer.push("let mut _fds: [RawFd; ");
            let count = u64_to_string(fd_count as u64);
            self.buffer.push(count.as_str());
            self.buffer.push("] = unsafe { std::mem::uninitialized() };");
            self.buffer.push_end_of_line();
        }
    }

    fn generate_header(&mut self, event: &Event, message_size: &MessageSize)
        requires
            message_size.size == constant_size(event@.arguments),
            message_size.spec_names() == variable_names(event@.arguments),
        ensures
            final(self).spec_indent() == old(self).spec_indent(),
            final(self).spec_content() == header_text(
                old(self).spec_content(),
                old(self).spec_indent(),
                event.opcode,
                event@.arguments,
            ),
    {
        if message_size.is_constant() {
            self.buffer.push_line("let mut _bytes_buf = std::io::Cursor::new(&mut _bytes[..]);");
        } else {
            self.buffer.push_line(
                "let mut _bytes_buf = std::io::Cursor::new(_bytes.as_mut_slice());",
            );
        }
        self.buffer.push_line("_bytes_buf.write_u32::<NativeEndian>(_id.get_value())?;");
        self.buffer.push_indent();
        self.buffer.push("_bytes_buf.write_u16::<NativeEndian>(");
        let opcode = u64_to_string(event.opcode as u64);
        self.buffer.push(opcode.as_str());
        self.buffer.push(")?;");
        self.buffer.push_end_of_line();
        if message_size.is_constant() {
            self.buffer.push_indent();
            self.buffer.push("_bytes_buf.write_u16::<NativeEndian>(");
            let size = u64_to_string(message_size.size as u64);
            self.buffer.push(size.as_str());
            self.buffer.push(")?;");
            self.buffer.push_end_of_line();
        } else {
            self.buffer.push_line("_bytes_buf.write_u16::<NativeEndian>(_msg_len as u16)?;");
        }
    }

    fn generate_argument_write(&mut self, argument: &Argument)
        requires
            old(self).spec_indent() + 1 <= u32::MAX,
        ensures
            final(self).spec_indent() == old(self).spec_indent(),
            final(self).spec_content() == write_argument_text(
                old(self).spec_content(),
                old(self).spec_indent(),
                argument@,
            ),
    {
        let name = argument.name.as_str();
        match argument.rust_type {
            RustType::Object => {
                self.buffer.push_indent();
                self.buffer.push("_bytes_buf.write_u32::<NativeEndian>(");
                self.buffer.push(name);
                self.buffer.push(".get_value())?;");
                self.buffer.push_end_of_line();
            },
            RustType::NewId => {
                self.buffer.push_indent();
                self.buffer.push("_bytes_buf.write_u32::<NativeEndian>(");
                self.buffer.push(name);
                self.buffer.push(".get_value())?;");
                self.buffer.push_end_of_line();
            },
            RustType::UInt => {
                self.buffer.push_indent();
                self.buffer.push("_bytes_buf.write_u32::<NativeEndian>(");
                self.buffer.push(name);
                self.buffer.push(")?;");
                self.buffer.push_end_of_line();
            },
            RustType::Int => {
                self.buffer.push_indent();
                self.buffer.push("_bytes_buf.write_i32::<NativeEndian>(");
                self.buffer.push(name);
                self.buffer.push(")?;");
                self.buffer.push_end_of_line();
            },
            RustType::Fixed => {
                self.buffer.push_indent();
                self.buffer.push("_bytes_buf.write_i32::<NativeEndian>(((");
                self.buffer.push(name);
                self.buffer.push(" as f64) * 256.0) as i32");
                self.buffer.push(")?;");
                self.buffer.push_end_of_line();
            },
            RustType::String => {
                self.buffer.push_indent();
                self.buffer.push("_bytes_buf.write_u32::<NativeEndian>(_");
                self.buffer.push(name);
                self.buffer.push("_len as u32 + 1)?;");
                self.buffer.push_end_of_line();
                self.buffer.push_indent();
                self.buffer.push("_bytes_buf.write(");
                self.buffer.push(name);
                self.buffer.push(".as_bytes())?;");
                self.buffer.push_end_of_line();
                self.buffer.push_indent();
                self.buffer.push("for _ in 0..(_");
                self.buffer.push(name);
                self.buffer.push("_padding) {");
                self.buffer.push_end_of_line();
                self.buffer.increase_indent();
                self.buffer.push_line("_bytes_buf.write_u8(0)?;");
                self.buffer.decrease_indent();
                self.buffer.push_line("}");
            },
            RustType::Array => {
                self.buffer.push_indent();
                self.buffer.push("_bytes_buf.write_u32::<NativeEndian>(_");
                self.buffer.push(name);
                self.buffer.push("_size as u32)?;");
                self.buffer.push_end_of_line();
                self.buffer.push_indent();
                self.buffer.push("for &_e in ");
                self.buffer.push(name);
                self.buffer.push(" {");
                self.buffer.push_end_of_line();
                self.buffer.increase_indent();
                self.buffer.push_line("_bytes_buf.write_u32::<NativeEndian>(_e)?;");
                self.buffer.decrease_indent();
                self.buffer.push_line("}");
            },
            RustType::FD => {
                self.buffer.push_indent();
                self.buffer.push("_fds[_fds_pos] = ");
                self.buffer.push(name);
                self.buffer.push(";");
                self.buffer.push_end_of_line();
                self.buffer.push_line("_fds_pos += 1;");
            },
        }
    }

    fn generate_event_body(&mut self, event: &Event)
        requires
            old(self).spec_indent() + 2 <= u32::MAX,
            8 + 4 * event.arguments@.len() <= usize::MAX,
        ensures
            final(self).spec_indent() == old(self).spec_indent(),
            final(self).spec_content() == event_body_text(
                old(self).spec_content(),
                old(self).spec_indent(),
                event@,
            ),
    {
        let ghost m = self.spec_indent();
        let ghost arguments = event@.arguments;
        let message_size = MessageSize::from_arguments(&event.arguments);
        self.generate_buffer_declaration(&event.arguments, &message_size);
        self.generate_fds_declaration(event);
        self.buffer.push_line("{");
        self.buffer.increase_indent();
        self.generate_header(event, &message_size);
        let ghost start = self.spec_content();
        let mut a: usize = 0;
        while a < event.arguments.len()
            invariant
                a <= event.arguments.len(),
                arguments == event@.arguments,
                self.spec_indent() == m + 1,
                m + 2 <= u32::MAX,
                self.spec_content() == arguments.take(a as int).fold_left(
                    start,
                    write_argument_step(m + 1),
                ),
            decreases event.arguments.len() - a,
        {
            proof {
                lemma_fold_take(arguments, start, write_argument_step(m + 1), a as int);
            }
            self.generate_argument_write(&event.arguments[a]);
            a = a + 1;
        }
        proof {
            lemma_fold_take_all(arguments, start, write_argument_step(m + 1));
        }
        self.buffer.decrease_indent();
        self.buffer.push_line("}");
        let fd_count = Self::count_raw_fds(event);
        if fd_count > 0 {
            self.buffer.push_line("_socket.write_with_control_data(&_bytes[..], &_fds[..])?;");
        } else {
            self.buffer.push_line("_socket.write(&_bytes[..])?;");
        }
        self.buffer.push_line("Ok(())");
    }

    fn generate_argument_read(&mut self, argument: &Argument)
        requires
            old(self).spec_indent() + 1 <= u32::MAX,
            argument.rust_type != RustType::Array,
        ensures
            final(self).spec_indent() == old(self).spec_indent(),
            final(self).spec_content() == read_argument_text(
                old(self).spec_content(),
                old(self).spec_indent(),
                argument@,
            ),
    {
        let name = argument.name.as_str();
        match argument.rust_type {
            RustType::Object => {
                self.buffer.push_indent();
                self.buffer.push("let ");
                self.buffer.push(name);
                self.buffer.push(" = ObjectId::new(_bytes_buf.read_u32::<NativeEndian>()?);\n");
            },
            RustType::NewId => {
                self.buffer.push_indent();
                self.buffer.push("let ");
                self.buffer.push(name);
                self.buffer.push(" = ObjectId::new(_bytes_buf.read_u32::<NativeEndian>()?);\n");
            },
            RustType::UInt => {
                self.buffer.push_indent();
                self.buffer.push("let ");
                self.buffer.push(name);
                self.buffer.push(" = _bytes_buf.read_u32::<NativeEndian>()?;\n");
            },
            RustType::Int => {
                self.buffer.push_indent();
                self.buffer.push("let ");
                self.buffer.push(name);
                self.buffer.push(" = _bytes_buf.read_i32::<NativeEndian>()?;\n");
            },
            RustType::Fixed => {
                self.buffer.push_indent();
                self.buffer.push("let ");
                self.buffer.push(name);
                self.buffer.push(" = (_bytes_buf.read_i32::<NativeEndian>()? as f64) * 0.00390625;\n");
            },
            RustType::String => {
                self.buffer.push_indent();
                self.buffer.push("let _");
                self.buffer.push(name);
                self.buffer.push("_len = _bytes_buf.read_u32::<NativeEndian>()? - 1;\n");
                self.buffer.push_indent();
                self.buffer.push("let _");
                self.buffer.push(name);
                self.buffer.push("_size = (_");
                self.buffer.push(name);
                self.buffer.push("_len / 4) * 4 + 4;\n");
                self.buffer.push_indent();
                self.buffer.push("let _");
                self.buffer.push(name);
                self.buffer.push("_padding = _");
                self.buffer.push(name);
                self.buffer.push("_size - _");
                self.buffer.push(name);
                self.buffer.push("_len;\n");
                self.buffer.push_indent();
                self.buffer.push("let mut ");
                self.buffer.push(name);
                self.buffer.push(" = String::with_capacity(_");
                self.buffer.push(name);
                self.buffer.push("_len as usize);\n");
                self.buffer.push_indent();
                self.buffer.push("for _ in 0 .. _");
                self.buffer.push(name);
                self.buffer.push("_len {\n");
                self.buffer.increase_indent();
                self.buffer.push_line("let c = _bytes_buf.read_u8()?;");
                self.buffer.push_indent();
                self.buffer.push("if c != 0 { ");
                self.buffer.push(name);
                self.buffer.push(".push(c as char) }\n");
                self.buffer.decrease_indent();
                self.buffer.push_indent();
                self.buffer.push("}\n");
                self.buffer.push_indent();
                self.buffer.push("for _ in 0 .. _");
                self.buffer.push(name);
                self.buffer.push("_padding {\n");
                self.buffer.increase_indent();
                self.buffer.push_line("let _ = _bytes_buf.read_u8()?;");
                self.buffer.decrease_indent();
                self.buffer.push_indent();
                self.buffer.push("}\n");
            },
            RustType::Array => {},
            RustType::FD => {
                self.buffer.push_indent();
                self.buffer.push("let ");
                self.buffer.push(name);
                self.buffer.push(" = _fds_buf.read_i32::<NativeEndian>()?;\n");
            },
        }
    }

    fn generate_request_case(&mut self, protocol_name: &str, interface_name: &str, request: &Request)
        requires
            old(self).spec_indent() + 3 <= u32::MAX,
            !has_type(request@.arguments, RustType::Array),
        ensures
            final(self).spec_indent() == old(self).spec_indent(),
            final(self).spec_content() == request_case_text(
                old(self).spec_content(),
                old(self).spec_indent(),
                protocol_name@,
                interface_name@,
                request@,
            ),
    {
        let ghost k = self.spec_indent();
        let ghost arguments = request@.arguments;
        self.buffer.push_indent();
        let opcode = u64_to_string(request.opcode as u64);
        self.buffer.push(opcode.as_str());
        self.buffer.push(" => {");
        self.buffer.push_end_of_line();
        self.buffer.increase_indent();
        let ghost start = self.spec_content();
        let mut a: usize = 0;
        while a < request.arguments.len()
            invariant
                a <= request.arguments.len(),
                arguments == request@.arguments,
                !has_type(arguments, RustType::Array),
                self.spec_indent() == k + 1,
                k + 3 <= u32::MAX,
                self.spec_content() == arguments.take(a as int).fold_left(
                    start,
                    read_argument_step(k + 1),
                ),
            decreases request.arguments.len() - a,
        {
            proof {
                lemma_fold_take(arguments, start, read_argument_step(k + 1), a as int);
                assert(arguments[a as int] == request.arguments@[a as int]@);
            }
            self.generate_argument_read(&request.arguments[a]);
            a = a + 1;
        }
        proof {
            lemma_fold_take_all(arguments, start, read_argument_step(k + 1));
        }
        self.generate_log(
            true,
            protocol_name,
            interface_name,
            request.name.as_str(),
            &request.arguments,
        );
        self.buffer.push_indent();
        self.buffer.push("Ok( _object.");
        self.buffer.push(validate_name(request.name.as_str()));
        self.buffer.push(" (");
        self.buffer.push_end_of_line();
        self.buffer.increase_indent();
        self.buffer.push_line("ObjectId::new(_header.object_id),");
        self.buffer.push_line("_socket,");
        let ghost start = self.spec_content();
        let mut a: usize = 0;
        while a < request.arguments.len()
            invariant
                a <= request.arguments.len(),
                arguments == request@.arguments,
                self.spec_indent() == k + 2,
                self.spec_content() == arguments.take(a as int).fold_left(
                    start,
                    argument_value_step(k + 2),
                ),
            decreases request.arguments.len() - a,
        {
            proof {
                lemma_fold_take(arguments, start, argument_value_step(k + 2), a as int);
            }
            self.buffer.push_indent();
            self.buffer.push(request.arguments[a].name.as_str());
            self.buffer.push(",\n");
            a = a + 1;
        }
        proof {
            lemma_fold_take_all(arguments, start, argument_value_step(k + 2));
        }
        self.buffer.decrease_indent();
        self.buffer.push_line("))");
        self.buffer.decrease_indent();
        self.buffer.push_line("}");
    }

    fn generate_dispatcher_head(&mut self)
        requires
            old(self).spec_indent() + 3 <= u32::MAX,
        ensures
            final(self).spec_indent() == old(self).spec_indent() + 3,
            final(self).spec_content() == dispatcher_head_text(
                old(self).spec_content(),
                old(self).spec_indent() as nat,
            ),
    {
        self.buffer.push_end_of_line();
        self.buffer.push_line("pub struct Dispatcher {}");
        self.buffer.push_end_of_line();
        self.buffer.push_line("impl<I: Interface> Disp<I> for Dispatcher {");
        self.buffer.increase_indent();
        self.buffer.push_line("fn new() -> Self {");
        self.buffer.increase_indent();
        self.buffer.push_line("Dispatcher {}");
        self.buffer.decrease_indent();
        self.buffer.push_line("}");
        self.buffer.push_end_of_line();
        self.buffer.push_line("fn dispatch (");
        self.buffer.increase_indent();
        self.buffer.push_line("&mut self,");
        self.buffer.push_line("_object: &mut I,");
        self.buffer.push_line("_socket: &mut ClientSocket,");
        self.buffer.push_line("_header: &Header,");
        self.buffer.push_line("_bytes_buf: &mut std::io::Cursor<&[u8]>,");
        self.buffer.push_line("_fds_buf: &mut std::io::Cursor<&[u8]>,");
        self.buffer.decrease_indent();
        self.buffer.push_line(") -> Result<Task, SkylaneError> {");
        self.buffer.increase_indent();
        self.buffer.push_line("match _header.opcode {");
        self.buffer.increase_indent();
    }

    fn generate_dispatcher_tail(&mut self)
        requires
            old(self).spec_indent() >= 3,
            old(self).spec_indent() + 1 <= u32::MAX,
        ensures
            final(self).spec_indent() == old(self).spec_indent() - 3,
            final(self).spec_content() == dispatcher_tail_text(
                old(self).spec_content(),
                (old(self).spec_indent() - 3) as nat,
            ),
    {
        self.buffer.push_line("_ => {");
        self.buffer.increase_indent();
        self.buffer.push_line(
            "Err(SkylaneError::WrongOpcode { name: NAME, object_id: _header.object_id, opcode: _header.opcode })",
        );
        self.buffer.decrease_indent();
        self.buffer.push_line("}");
        self.buffer.decrease_indent();
        self.buffer.push_line("}");
        self.buffer.decrease_indent();
        self.buffer.push_line("}");
        self.buffer.decrease_indent();
        self.buffer.push_line("}");
    }

    fn generate_dispatcher(&mut self, protocol_name: &str, interface: &Interface)
        requires
            old(self).spec_indent() + 6 <= u32::MAX,
            generatable(interface@),
        ensures
            final(self).spec_indent() == old(self).spec_indent(),
            final(self).spec_content() == dispatcher_text(
                old(self).spec_content(),
                old(self).spec_indent(),
                protocol_name@,
                interface@,
            ),
    {
        let ghost m = self.spec_indent();
        self.generate_dispatcher_head();
        let ghost requests = interface@.requests;
        let ghost step = request_case_step(m + 3, protocol_name@, interface@.name);
        let ghost start = self.spec_content();
        let mut i: usize = 0;
        while i < interface.requests.len()
            invariant
                i <= interface.requests.len(),
                requests == interface@.requests,
                generatable(interface@),
                step == request_case_step(m + 3, protocol_name@, interface@.name),
                self.spec_indent() == m + 3,
                m + 6 <= u32::MAX,
                self.spec_content() == requests.take(i as int).fold_left(start, step),
            decreases interface.requests.len() - i,
        {
            proof {
                lemma_fold_take(requests, start, step, i as int);
                assert(requests[i as int] == interface.requests@[i as int]@);
                assert(!has_type(requests[i as int].arguments, RustType::Array));
            }
            self.generate_request_case(protocol_name, interface.name.as_str(), &interface.requests[i]);
            i = i + 1;
        }
        proof {
            lemma_fold_take_all(requests, start, step);
        }
        self.generate_dispatcher_tail();
    }

    fn generate_module_start(&mut self, interface: &Interface)
        requires
            old(self).spec_indent() + 1 <= u32::MAX,
            generatable(interface@),
        ensures
            final(self).spec_indent() == old(self).spec_indent() + 1,
            final(self).spec_content() == module_start_text(
                old(self).spec_content(),
                old(self).spec_indent(),
                interface@,
            ),
    {
        self.buffer.push_end_of_line();
        self.buffer.push_indent();
        self.buffer.push("pub mod ");
        self.buffer.push(interface.name.as_str());
        self.buffer.push(" {");
        self.buffer.push_end_of_line();
        self.buffer.increase_indent();
        self.buffer.push_line("use std;");
        if Self::check_if_needs_raw_fd(interface) {
            self.buffer.push_line("use std::os::unix::io::RawFd;");
        }
        if Self::check_if_needs_write(interface) {
            self.buffer.push_line("use std::io::Write;");
        }
        if Self::check_if_needs_write_bytes_ext(interface) {
            self.buffer.push_line("use byteorder::WriteBytesExt;");
        }
        if Self::check_if_needs_read_bytes_ext(interface) {
            self.buffer.push_line("use byteorder::ReadBytesExt;");
        }
        self.buffer.push_line("use byteorder::NativeEndian;");
        self.buffer.push_line("use skylane::common::{SkylaneError, Header, ObjectId};");
        self.buffer.push_line("use skylane::server::{ClientSocket, Task};");
        self.buffer.push_line("use super::super::Dispatcher as Disp;");
        self.buffer.push_end_of_line();
        self.buffer.push_indent();
        self.buffer.push("pub const NAME: &'static str = \"");
        self.buffer.push(interface.name.as_str());
        self.buffer.push("\";");
        self.buffer.push_end_of_line();
        self.buffer.push_indent();
        self.buffer.push("pub const VERSION: u32 = ");
        let version = u64_to_string(interface.version as u64);
        self.buffer.push(version.as_str());
        self.buffer.push(";");
        self.buffer.push_end_of_line();
    }

    fn generate_module_end(&mut self)
        requires
            old(self).spec_indent() >= 1,
        ensures
            final(self).spec_indent() == old(self).spec_indent() - 1,
            final(self).spec_content() == old(self).spec_content() + line(
                (old(self).spec_indent() - 1) as nat,
                "}"@,
            ),
    {
        self.buffer.decrease_indent();
        self.buffer.push_line("}");
    }

    fn generate_enums(&mut self, interface: &Interface)
        requires
            old(self).spec_indent() + 1 <= u32::MAX,
        ensures
            final(self).spec_indent() == old(self).spec_indent(),
            final(self).spec_content() == interface@.enums.fold_left(
                old(self).spec_content(),
                enum_step(old(self).spec_indent()),
            ),
    {
        let ghost enums = interface@.enums;
        let ghost j = self.spec_indent();
        let mut i: usize = 0;
        while i < interface.enums.len()
            invariant
                i <= interface.enums.len(),
                enums == interface@.enums,
                j == old(self).spec_indent(),
                self.spec_indent() == j,
                j + 1 <= u32::MAX,
                self.spec_content() == enums.take(i as int).fold_left(
                    old(self).spec_content(),
                    enum_step(j),
                ),
            decreases interface.enums.len() - i,
        {
            let e = &interface.enums[i];
            proof {
                lemma_fold_take(enums, old(self).spec_content(), enum_step(j), i as int);
            }
            self.generate_enum_start(e.name.as_str());
            let mut k: usize = 0;
            let ghost start = self.spec_content();
            while k < e.entries.len()
                invariant
                    k <= e.entries.len(),
                    e@ == enums[i as int],
                    self.spec_indent() == j + 1,
                    self.spec_content() == e@.entries.take(k as int).fold_left(
                        start,
                        entry_step(j + 1),
                    ),
                decreases e.entries.len() - k,
            {
                proof {
                    lemma_fold_take(e@.entries, start, entry_step(j + 1), k as int);
                }
                self.generate_entry(&e.entries[k]);
                k = k + 1;
            }
            proof {
                lemma_fold_take_all(e@.entries, start, entry_step(j + 1));
            }
            self.generate_enum_end();
            i = i + 1;
        }
        proof {
            lemma_fold_take_all(enums, old(self).spec_content(), enum_step(j));
        }
    }

    fn generate_interface(&mut self, interface: &Interface)
        requires
            old(self).spec_indent() + 2 <= u32::MAX,
        ensures
            final(self).spec_indent() == old(self).spec_indent(),
            final(self).spec_content() == interface_text(
                old(self).spec_content(),
                old(self).spec_indent(),
                interface@,
            ),
    {
        self.generate_interface_start();
        self.generate_requests(interface);
        self.generate_interface_end();
    }

    fn generate_requests(&mut self, interface: &Interface)
        requires
            old(self).spec_indent() + 1 <= u32::MAX,
        ensures
            final(self).spec_indent() == old(self).spec_indent(),
            final(self).spec_content() == interface@.requests.fold_left(
                old(self).spec_content(),
                request_step(old(self).spec_indent()),
            ),
    {
        let ghost requests = interface@.requests;
        let ghost k = self.spec_indent();
        let mut i: usize = 0;
        while i < interface.requests.len()
            invariant
                i <= interface.requests.len(),
                requests == interface@.requests,
                k == old(self).spec_indent(),
                self.spec_indent() == k,
                k + 1 <= u32::MAX,
                self.spec_content() == requests.take(i as int).fold_left(
                    old(self).spec_content(),
                    request_step(k),
                ),
            decreases interface.requests.len() - i,
        {
            let request = &interface.requests[i];
            proof {
                lemma_fold_take(requests, old(self).spec_content(), request_step(k), i as int);
            }
            self.generate_request_start(request.name.as_str());
            let mut a: usize = 0;
            let ghost start = self.spec_content();
            while a < request.arguments.len()
                invariant
                    a <= request.arguments.len(),
                    request@ == requests[i as int],
                    self.spec_indent() == k + 1,
                    self.spec_content() == request@.arguments.take(a as int).fold_left(
                        start,
                        output_argument_step(k + 1),
                    ),
                decreases request.arguments.len() - a,
            {
                proof {
                    lemma_fold_take(request@.arguments, start, output_argument_step(k + 1), a as int);
                }
                let argument = &request.arguments[a];
                self.generate_output_argument(argument.name.as_str(), argument.rust_type);
                a = a + 1;
            }
            proof {
                lemma_fold_take_all(request@.arguments, start, output_argument_step(k + 1));
            }
            self.generate_request_end();
            i = i + 1;
        }
        proof {
            lemma_fold_take_all(requests, old(self).spec_content(), request_step(k));
        }
    }

    fn generate_enum_start(&mut self, name: &str)
        requires
            old(self).spec_indent() + 1 <= u32::MAX,
        ensures
            final(self).spec_indent() == old(self).spec_indent() + 1,
            final(self).spec_content() == old(self).spec_content() + nl() + indent_text(
                old(self).spec_indent(),
            ) + "pub mod "@ + name@ + " {\n"@,
    {
        self.buffer.push_end_of_line();
        self.buffer.push_indent();
        self.buffer.push("pub mod ");
        self.buffer.push(name);
        self.buffer.push(" {\n");
        self.buffer.increase_indent();
    }

    fn generate_entry(&mut self, entry: &Entry)
        ensures
            final(self).spec_indent() == old(self).spec_indent(),
            final(self).spec_content() == entry_text(
                old(self).spec_content(),
                old(self).spec_indent(),
                entry@,
            ),
    {
        broadcast use vstd::string::axiom_spec_iter, vstd::string::next_postcondition;

        let upper = to_uppercase(entry.name.as_str());
        let mut chars = upper.as_str().chars();
        let first = chars.next();
        if let Some(c) = first {
            let name = if is_alphabetic(c) {
                upper
            } else {
                let mut prefixed = String::from_str("_");
                prefixed.append(upper.as_str());
                proof {
                    reveal_strlit("_");
                    assert(prefixed@ =~= seq!['_'] + unicode_uppercase(entry.name@));
                }
                prefixed
            };
            self.buffer.push_indent();
            self.buffer.push("pub const ");
            self.buffer.push(name.as_str());
            self.buffer.push(": u32 = ");
            self.buffer.push(entry.value.as_str());
            self.buffer.push(";\n");
        }
    }

    fn generate_enum_end(&mut self)
        requires
            old(self).spec_indent() >= 1,
        ensures
            final(self).spec_indent() == old(self).spec_indent() - 1,
            final(self).spec_content() == old(self).spec_content() + line(
                (old(self).spec_indent() - 1) as nat,
                "}"@,
            ),
    {
        self.buffer.decrease_indent();
        self.buffer.push_line("}");
    }

    fn generate_interface_start(&mut self)
        requires
            old(self).spec_indent() + 1 <= u32::MAX,
        ensures
            final(self).spec_indent() == old(self).spec_indent() + 1,
            final(self).spec_content() == old(self).spec_content() + nl() + line(
                old(self).spec_indent(),
                "pub trait Interface {"@,
            ),
    {
        self.buffer.push_end_of_line();
        self.buffer.push_line("pub trait Interface {");
        self.buffer.increase_indent();
    }

    fn generate_interface_end(&mut self)
        requires
            old(self).spec_indent() >= 1,
        ensures
            final(self).spec_indent() == old(self).spec_indent() - 1,
            final(self).spec_content() == old(self).spec_content() + line(
                (old(self).spec_indent() - 1) as nat,
                "}"@,
            ),
    {
        self.buffer.decrease_indent();
        self.buffer.push_line("}");
    }

    fn generate_request_start(&mut self, name: &str)
        requires
            old(self).spec_indent() + 1 <= u32::MAX,
        ensures
            final(self).spec_indent() == old(self).spec_indent() + 1,
            final(self).spec_content() == old(self).spec_content() + nl() + indent_text(
                old(self).spec_indent(),
            ) + "fn "@ + valid_name(name@) + " (\n"@ + line(
                old(self).spec_indent() + 1,
                "&mut self,"@,
            ) + line(old(self).spec_indent() + 1, "this_object_id: ObjectId,"@) + line(
                old(self).spec_indent() + 1,
                "socket: &mut ClientSocket,"@,
            ),
    {
        self.buffer.push_end_of_line();
        self.buffer.push_indent();
        self.buffer.push("fn ");
        self.buffer.push(validate_name(name));
        self.buffer.push(" (\n");
        self.buffer.increase_indent();
        self.buffer.push_line("&mut self,");
        self.buffer.push_line("this_object_id: ObjectId,");
        self.buffer.push_line("socket: &mut ClientSocket,");
    }

    fn generate_request_end(&mut self)
        requires
            old(self).spec_indent() >= 1,
        ensures
            final(self).spec_indent() == old(self).spec_indent() - 1,
            final(self).spec_content() == old(self).spec_content() + line(
                (old(self).spec_indent() - 1) as nat,
                ") -> Task;"@,
            ),
    {
        self.buffer.decrease_indent();
        self.buffer.push_line(") -> Task;");
    }

    fn generate_output_argument(&mut self, name: &str, rust_type: RustType)
        ensures
            final(self).spec_indent() == old(self).spec_indent(),
            final(self).spec_content() == old(self).spec_content() + indent_text(
                old(self).spec_indent(),
            ) + name@ + ": "@ + rust_type.spec_output_str() + ",\n"@,
    {
        self.buffer.push_indent();
        self.buffer.push(name);
        self.buffer.push(": ");
        self.buffer.push(rust_type.to_output_str());
        self.buffer.push(",\n");
    }

    fn check_if_needs_write(interface: &Interface) -> (result: bool)
        requires
            generatable(interface@),
        ensures
            result == needs_write(interface@),
    {
        let mut i: usize = 0;
        while i < interface.events.len()
            invariant
                i <= interface.events.len(),
                generatable(interface@),
                forall|e: int|
                    0 <= e < i ==> !(#[trigger] has_type(
                        interface@.events[e].arguments,
                        RustType::String,
                    )),
            decreases interface.events.len() - i,
        {
            let event = &interface.events[i];
            assert(interface@.events[i as int] == event@);
            let message_size = MessageSize::from_arguments(&event.arguments);
            proof {
                lemma_variable_string(event@.arguments);
                let names = message_size.names@;
                assert forall|k: int| 0 <= k < names.len() implies (names[k] is String
                    <==> (#[trigger] message_size.spec_names()[k]).1 == RustType::String) by {
                    assert(message_size.spec_names()[k] == variable_view(names[k]));
                }
                assert(interface@.events[i as int] == event@);
            }
            if message_size.contains_string() {
                proof {
                    let k = choose|k: int|
                        0 <= k < message_size.names@.len() && #[trigger] message_size.names@[k] is String;
                    assert(message_size.spec_names()[k].1 == RustType::String);
                }
                return true;
            }
            proof {
                if has_type(event@.arguments, RustType::String) {
                    let k = choose|k: int|
                        0 <= k < variable_names(event@.arguments).len() && (
                        #[trigger] variable_names(event@.arguments)[k]).1 == RustType::String;
                    assert(message_size.names@[k] is String);
                }
            }
            i = i + 1;
        }
        false
    }

    fn check_if_needs_write_bytes_ext(interface: &Interface) -> (result: bool)
        ensures
            result == (interface@.events.len() > 0),
    {
        interface.events.len() > 0
    }

    fn check_if_needs_read_bytes_ext(interface: &Interface) -> (result: bool)
        ensures
            result == needs_read_bytes_ext(interface@),
    {
        let mut i: usize = 0;
        while i < interface.requests.len()
            invariant
                i <= interface.requests.len(),
                forall|r: int|
                    0 <= r < i ==> #[trigger] interface@.requests[r].arguments.len() == 0,
            decreases interface.requests.len() - i,
        {
            if interface.requests[i].arguments.len() > 0 {
                assert(interface@.requests[i as int].arguments.len() > 0);
                return true;
            }
            assert(interface@.requests[i as int].arguments.len() == 0);
            i = i + 1;
        }
        false
    }

    /// Whether some argument of the list has the given type.
    fn arguments_have_type(arguments: &Vec<Argument>, rust_type: RustType) -> (result: bool)
        ensures
            result == has_type(arguments_view(arguments@), rust_type),
    {
        let mut i: usize = 0;
        while i < arguments.len()
            invariant
                i <= arguments.len(),
                forall|k: int| 0 <= k < i ==> arguments@[k].rust_type != rust_type,
            decreases arguments.len() - i,
        {
            if arguments[i].rust_type == rust_type {
                assert(arguments_view(arguments@)[i as int].rust_type == rust_type);
                return true;
            }
            i = i + 1;
        }
        proof {
            assert forall|k: int| 0 <= k < arguments@.len() implies arguments_view(
                arguments@,
            )[k].rust_type != rust_type by {
                assert(arguments_view(arguments@)[k] == arguments@[k]@);
            }
        }
        false
    }

    fn check_if_needs_raw_fd(interface: &Interface) -> (result: bool)
        ensures
            result == needs_raw_fd(interface@),
    {
        let mut i: usize = 0;
        while i < interface.requests.len()
            invariant
                i <= interface.requests.len(),
                forall|r: int|
                    0 <= r < i ==> !(#[trigger] has_type(
                        interface@.requests[r].arguments,
                        RustType::FD,
                    )),
            decreases interface.requests.len() - i,
        {
            let has_fd = Self::arguments_have_type(&interface.requests[i].arguments, RustType::FD);
            assert(interface@.requests[i as int] == interface.requests@[i as int]@);
            if has_fd {
                assert(has_type(interface@.requests[i as int].arguments, RustType::FD));
                return true;
            }
            i = i + 1;
        }
        let mut i: usize = 0;
        while i < interface.events.len()
            invariant
                i <= interface.events.len(),
                forall|r: int|
                    0 <= r < interface@.requests.len() ==> !(#[trigger] has_type(
                        interface@.requests[r].arguments,
                        RustType::FD,
                    )),
                forall|e: int|
                    0 <= e < i ==> !(#[trigger] has_type(
                        interface@.events[e].arguments,
                        RustType::FD,
                    )),
            decreases interface.events.len() - i,
        {
            let has_fd = Self::arguments_have_type(&interface.events[i].arguments, RustType::FD);
            assert(interface@.events[i as int] == interface.events@[i as int]@);
            if has_fd {
                assert(has_type(interface@.events[i as int].arguments, RustType::FD));
                return true;
            }
            i = i + 1;
        }
        false
    }

    /// Whether code can be generated for the interface.
    pub fn interface_is_generatable(interface: &Interface) -> (result: bool)
        ensures
            result == generatable(interface@),
    {
        let mut i: usize = 0;
        while i < interface.requests.len()
            invariant
                i <= interface.requests.len(),
                forall|r: int|
                    0 <= r < i ==> !(#[trigger] has_type(
                        interface@.requests[r].arguments,
                        RustType::Array,
                    )),
            decreases interface.requests.len() - i,
        {
            let has_array = Self::arguments_have_type(
                &interface.requests[i].arguments,
                RustType::Array,
            );
            assert(interface@.requests[i as int] == interface.requests@[i as int]@);
            if has_array {
                assert(has_type(interface@.requests[i as int].arguments, RustType::Array));
                return false;
            }
            i = i + 1;
        }
        let mut e: usize = 0;
        while e < interface.events.len()
            invariant
                e <= interface.events.len(),
                forall|r: int|
                    0 <= r < interface@.requests.len() ==> !(#[trigger] has_type(
                        interface@.requests[r].arguments,
                        RustType::Array,
                    )),
                forall|k: int|
                    0 <= k < e ==> 8 + 4 * (#[trigger] interface@.events[k]).arguments.len()
                        <= usize::MAX,
            decreases interface.events.len() - e,
        {
            assert(interface@.events[e as int] == interface.events@[e as int]@);
            if interface.events[e].arguments.len() > (usize::MAX - 8) / 4 {
                return false;
            }
            e = e + 1;
        }
        true
    }

    fn count_raw_fds(event: &Event) -> (result: usize)
        ensures
            result == fd_count(event@.arguments),
    {
        let ghost arguments = event@.arguments;
        let mut count: usize = 0;
        let mut i: usize = 0;
        while i < event.arguments.len()
            invariant
                i <= event.arguments.len(),
                arguments == event@.arguments,
                count == fd_count(arguments.take(i as int)),
                count <= i,
            decreases event.arguments.len() - i,
        {
            proof {
                assert(arguments.take(i + 1).drop_last() =~= arguments.take(i as int));
                assert(arguments[i as int] == event.arguments@[i as int]@);
            }
            if event.arguments[i].rust_type == RustType::FD {
                count = count + 1;
            }
            i = i + 1;
        }
        proof {
            assert(arguments.take(arguments.len() as int) =~= arguments);
        }
        count
    }
}

/// Generator for client-side code. It writes nothing yet: the text it returns is what its
/// buffer holds, which stays empty.
pub struct ClientGenerator {
    buffer: Buffer,
}

impl ClientGenerator {
    /// Current level of indentation.
    pub closed spec fn spec_indent(&self) -> nat {
        self.buffer.spec_indent() as nat
    }

    /// Text generated so far.
    pub closed spec fn spec_content(&self) -> Seq<char> {
        self.buffer.spec_content()
    }

    /// Creates new `ClientGenerator`.
    pub fn new(indent: u32) -> (result: Self)
        ensures
            result.spec_indent() == indent,
            result.spec_content() == Seq::<char>::empty(),
    {
        ClientGenerator { buffer: Buffer::new(indent) }
    }

    /// Returns generated code as string basing on protocol description.
    pub fn generate(&mut self, document: &Document) -> (result: String)
        ensures
            result@ == old(self).spec_content(),
            final(self).spec_content() == old(self).spec_content(),
    {
        self.buffer.get_content().clone()
    }
}

} // verus!
