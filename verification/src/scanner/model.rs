//! Structures representing a Wayland protocol definition and the wire types of its arguments.

use vstd::prelude::*;

use crate::text::str_eq;
use crate::scanner::generator::{has_type, lemma_variable_string};

verus! {

/// This enum represents name and type of variable-sized argument of event.
#[derive(Debug, Clone)]
pub enum VariableType {
    String(String),
    Array(String),
}

/// This enum represents memory size of Wayland types. Some may by constant like `uint` (4 bytes)
/// or variable like string (4 bytes size + contents + padding).
#[derive(Debug, Clone, Copy, PartialEq, Eq, Structural)]
pub enum Size {
    Constant(usize),
    String(usize),
    Array(usize),
}

/// Enum describing Wayland protocol wire types. Provides means to convert XML representation to
/// Rust representation for generated code.
#[derive(Clone, Copy, PartialEq, Eq, Structural, Debug)]
pub enum RustType {
    Object,
    NewId,
    UInt,
    Int,
    Fixed,
    String,
    Array,
    FD,
}

/// The wire type named by a "type" attribute of a protocol definition, if the name is known.
pub open spec fn rust_type_named(raw: Seq<char>) -> Option<RustType> {
    if raw == "object"@ {
        Some(RustType::Object)
    } else if raw == "new_id"@ {
        Some(RustType::NewId)
    } else if raw == "uint"@ {
        Some(RustType::UInt)
    } else if raw == "int"@ {
        Some(RustType::Int)
    } else if raw == "fixed"@ {
        Some(RustType::Fixed)
    } else if raw == "string"@ {
        Some(RustType::String)
    } else if raw == "array"@ {
        Some(RustType::Array)
    } else if raw == "fd"@ {
        Some(RustType::FD)
    } else {
        None
    }
}

impl RustType {
    /// Rust type used for arguments of this wire type passed to generated functions.
    pub open spec fn spec_input_str(self) -> Seq<char> {
        match self {
            RustType::Object => "ObjectId"@,
            RustType::NewId => "ObjectId"@,
            RustType::UInt => "u32"@,
            RustType::Int => "i32"@,
            RustType::Fixed => "f32"@,
            RustType::String => "&str"@,
            RustType::Array => "&[u32]"@,
            RustType::FD => "RawFd"@,
        }
    }

    /// Rust type used for arguments of this wire type received by generated functions.
    pub open spec fn spec_output_str(self) -> Seq<char> {
        match self {
            RustType::Object => "ObjectId"@,
            RustType::NewId => "ObjectId"@,
            RustType::UInt => "u32"@,
            RustType::Int => "i32"@,
            RustType::Fixed => "f32"@,
            RustType::String => "String"@,
            RustType::Array => "&[u32]"@,
            RustType::FD => "RawFd"@,
        }
    }

    /// Size in the message: four bytes for each type, variable for strings and arrays, and none
    /// for a file descriptor, which travels beside the message.
    pub open spec fn spec_size(self) -> Size {
        match self {
            RustType::String => Size::String(4),
            RustType::Array => Size::Array(4),
            RustType::FD => Size::Constant(0),
            _ => Size::Constant(4),
        }
    }

    /// Converts "type" identifier from protocol definition to `RustType` enum.
    pub fn from_raw(raw_type: &str) -> (result: Result<RustType, super::Error>)
        ensures
            match rust_type_named(raw_type@) {
                Some(t) => result == Ok::<RustType, super::Error>(t),
                None => result is Err && result->Err_0@ == super::ErrorView::Element(
                    "Unknown type '"@ + raw_type@ + "'"@,
                ),
            },
    {
        if str_eq(raw_type, "object") {
            Ok(RustType::Object)
        } else if str_eq(raw_type, "new_id") {
            Ok(RustType::NewId)
        } else if str_eq(raw_type, "uint") {
            Ok(RustType::UInt)
        } else if str_eq(raw_type, "int") {
            Ok(RustType::Int)
        } else if str_eq(raw_type, "fixed") {
            Ok(RustType::Fixed)
        } else if str_eq(raw_type, "string") {
            Ok(RustType::String)
        } else if str_eq(raw_type, "array") {
            Ok(RustType::Array)
        } else if str_eq(raw_type, "fd") {
            Ok(RustType::FD)
        } else {
            let mut message = String::from_str("Unknown type '");
            message.append(raw_type);
            message.append("'");
            Err(super::Error::Element(message))
        }
    }

    /// Returns Rust representation to be use as input argument type for generated functions.
    pub fn to_input_str(&self) -> (result: &'static str)
        ensures
            result@ == self.spec_input_str(),
    {
        match *self {
            RustType::Object => "ObjectId",
            RustType::NewId => "ObjectId",
            RustType::UInt => "u32",
            RustType::Int => "i32",
            RustType::Fixed => "f32",
            RustType::String => "&str",
            RustType::Array => "&[u32]",
            RustType::FD => "RawFd",
        }
    }

    /// Returns Rust representation to be use as output argument type for generated functions.
    pub fn to_output_str(&self) -> (result: &'static str)
        ensures
            result@ == self.spec_output_str(),
    {
        match *self {
            RustType::Object => "ObjectId",
            RustType::NewId => "ObjectId",
            RustType::UInt => "u32",
            RustType::Int => "i32",
            RustType::Fixed => "f32",
            RustType::String => "String",
            RustType::Array => "&[u32]",
            RustType::FD => "RawFd",
        }
    }

    /// Return size in bytes of corresponding Wayland wire type.
    pub fn get_size(&self) -> (result: Size)
        ensures
            result == self.spec_size(),
    {
        match *self {
            RustType::Object => Size::Constant(4),
            RustType::NewId => Size::Constant(4),
            RustType::UInt => Size::Constant(4),
            RustType::Int => Size::Constant(4),
            RustType::Fixed => Size::Constant(4),
            RustType::String => Size::String(4),
            RustType::Array => Size::Array(4),
            RustType::FD => Size::Constant(0),
        }
    }
}

/// Whether a name is a keyword of Rust, strict or reserved.
pub open spec fn is_rust_keyword(name: Seq<char>) -> bool {
        ||| name == "as"@
        ||| name == "async"@
        ||| name == "await"@
        ||| name == "break"@
        ||| name == "const"@
        ||| name == "continue"@
        ||| name == "crate"@
        ||| name == "dyn"@
        ||| name == "else"@
        ||| name == "enum"@
        ||| name == "extern"@
        ||| name == "false"@
        ||| name == "fn"@
        ||| name == "for"@
        ||| name == "if"@
        ||| name == "impl"@
        ||| name == "in"@
        ||| name == "let"@
        ||| name == "loop"@
        ||| name == "match"@
        ||| name == "mod"@
        ||| name == "move"@
        ||| name == "mut"@
        ||| name == "pub"@
        ||| name == "ref"@
        ||| name == "return"@
        ||| name == "self"@
        ||| name == "Self"@
        ||| name == "static"@
        ||| name == "struct"@
        ||| name == "super"@
        ||| name == "trait"@
        ||| name == "true"@
        ||| name == "type"@
        ||| name == "unsafe"@
        ||| name == "use"@
        ||| name == "where"@
        ||| name == "while"@
        ||| name == "abstract"@
        ||| name == "become"@
        ||| name == "box"@
        ||| name == "do"@
        ||| name == "final"@
        ||| name == "macro"@
        ||| name == "override"@
        ||| name == "priv"@
        ||| name == "try"@
        ||| name == "typeof"@
        ||| name == "unsized"@
        ||| name == "virtual"@
        ||| name == "yield"@
}

/// Whether a name is a keyword of C or C++ that is no keyword of Rust, followed by an underscore.
pub open spec fn is_underscored_c_keyword(name: Seq<char>) -> bool {
        ||| name == "auto_"@
        ||| name == "bool_"@
        ||| name == "case_"@
        ||| name == "catch_"@
        ||| name == "char_"@
        ||| name == "class_"@
        ||| name == "default_"@
        ||| name == "delete_"@
        ||| name == "double_"@
        ||| name == "float_"@
        ||| name == "friend_"@
        ||| name == "goto_"@
        ||| name == "inline_"@
        ||| name == "int_"@
        ||| name == "long_"@
        ||| name == "namespace_"@
        ||| name == "new_"@
        ||| name == "operator_"@
        ||| name == "private_"@
        ||| name == "protected_"@
        ||| name == "public_"@
        ||| name == "register_"@
        ||| name == "short_"@
        ||| name == "signed_"@
        ||| name == "sizeof_"@
        ||| name == "switch_"@
        ||| name == "template_"@
        ||| name == "this_"@
        ||| name == "throw_"@
        ||| name == "typedef_"@
        ||| name == "typename_"@
        ||| name == "union_"@
        ||| name == "unsigned_"@
        ||| name == "void_"@
        ||| name == "volatile_"@
}

/// The name used in generated code for a name from a protocol definition: a Rust keyword gets an
/// underscore appended, a C or C++ keyword that Rust does not reserve loses its trailing
/// underscore, and any other name stays as it is.
pub open spec fn valid_name(name: Seq<char>) -> Seq<char> {
    if is_rust_keyword(name) {
        name + seq!['_']
    } else if is_underscored_c_keyword(name) {
        name.drop_last()
    } else {
        name
    }
}

/// Appends "_" to tokens which are Rust keywords and trims it from tokens which are keywords in
/// C/C++ but not in Rust.
#[verifier::rlimit(50)]
pub fn validate_name(name: &str) -> (result: &str)
    ensures
        result@ == valid_name(name@),
{
    if str_eq(name, "as") {
        proof {
            reveal_strlit("as");
            reveal_strlit("as_");
        }
        "as_"
    } else if str_eq(name, "async") {
        proof {
            reveal_strlit("async");
            reveal_strlit("async_");
        }
        "async_"
    } else if str_eq(name, "await") {
        proof {
            reveal_strlit("await");
            reveal_strlit("await_");
        }
        "await_"
    } else if str_eq(name, "break") {
        proof {
            reveal_strlit("break");
            reveal_strlit("break_");
        }
        "break_"
    } else if str_eq(name, "const") {
        proof {
            reveal_strlit("const");
            reveal_strlit("const_");
        }
        "const_"
    } else if str_eq(name, "continue") {
        proof {
            reveal_strlit("continue");
            reveal_strlit("continue_");
        }
        "continue_"
    } else if str_eq(name, "crate") {
        proof {
            reveal_strlit("crate");
            reveal_strlit("crate_");
        }
        "crate_"
    } else if str_eq(name, "dyn") {
        proof {
            reveal_strlit("dyn");
            reveal_strlit("dyn_");
        }
        "dyn_"
    } else if str_eq(name, "else") {
        proof {
            reveal_strlit("else");
            reveal_strlit("else_");
        }
        "else_"
    } else if str_eq(name, "enum") {
        proof {
            reveal_strlit("enum");
            reveal_strlit("enum_");
        }
        "enum_"
    } else if str_eq(name, "extern") {
        proof {
            reveal_strlit("extern");
            reveal_strlit("extern_");
        }
        "extern_"
    } else if str_eq(name, "false") {
        proof {
            reveal_strlit("false");
            reveal_strlit("false_");
        }
        "false_"
    } else if str_eq(name, "fn") {
        proof {
            reveal_strlit("fn");
            reveal_strlit("fn_");
        }
        "fn_"
    } else if str_eq(name, "for") {
        proof {
            reveal_strlit("for");
            reveal_strlit("for_");
        }
        "for_"
    } else if str_eq(name, "if") {
        proof {
            reveal_strlit("if");
            reveal_strlit("if_");
        }
        "if_"
    } else if str_eq(name, "impl") {
        proof {
            reveal_strlit("impl");
            reveal_strlit("impl_");
        }
        "impl_"
    } else if str_eq(name, "in") {
        proof {
            reveal_strlit("in");
            reveal_strlit("in_");
        }
        "in_"
    } else if str_eq(name, "let") {
        proof {
            reveal_strlit("let");
            reveal_strlit("let_");
        }
        "let_"
    } else if str_eq(name, "loop") {
        proof {
            reveal_strlit("loop");
            reveal_strlit("loop_");
        }
        "loop_"
    } else if str_eq(name, "match") {
        proof {
            reveal_strlit("match");
            reveal_strlit("match_");
        }
        "match_"
    } else if str_eq(name, "mod") {
        proof {
            reveal_strlit("mod");
            reveal_strlit("mod_");
        }
        "mod_"
    } else if str_eq(name, "move") {
        proof {
            reveal_strlit("move");
            reveal_strlit("move_");
        }
        "move_"
    } else if str_eq(name, "mut") {
        proof {
            reveal_strlit("mut");
            reveal_strlit("mut_");
        }
        "mut_"
    } else if str_eq(name, "pub") {
        proof {
            reveal_strlit("pub");
            reveal_strlit("pub_");
        }
        "pub_"
    } else if str_eq(name, "ref") {
        proof {
            reveal_strlit("ref");
            reveal_strlit("ref_");
        }
        "ref_"
    } else if str_eq(name, "return") {
        proof {
            reveal_strlit("return");
            reveal_strlit("return_");
        }
        "return_"
    } else if str_eq(name, "self") {
        proof {
            reveal_strlit("self");
            reveal_strlit("self_");
        }
        "self_"
    } else if str_eq(name, "Self") {
        proof {
            reveal_strlit("Self");
            reveal_strlit("Self_");
        }
        "Self_"
    } else if str_eq(name, "static") {
        proof {
            reveal_strlit("static");
            reveal_strlit("static_");
        }
        "static_"
    } else if str_eq(name, "struct") {
        proof {
            reveal_strlit("struct");
            reveal_strlit("struct_");
        }
        "struct_"
    } else if str_eq(name, "super") {
        proof {
            reveal_strlit("super");
            reveal_strlit("super_");
        }
        "super_"
    } else if str_eq(name, "trait") {
        proof {
            reveal_strlit("trait");
            reveal_strlit("trait_");
        }
        "trait_"
    } else if str_eq(name, "true") {
        proof {
            reveal_strlit("true");
            reveal_strlit("true_");
        }
        "true_"
    } else if str_eq(name, "type") {
        proof {
            reveal_strlit("type");
            reveal_strlit("type_");
        }
        "type_"
    } else if str_eq(name, "unsafe") {
        proof {
            reveal_strlit("unsafe");
            reveal_strlit("unsafe_");
        }
        "unsafe_"
    } else if str_eq(name, "use") {
        proof {
            reveal_strlit("use");
            reveal_strlit("use_");
        }
        "use_"
    } else if str_eq(name, "where") {
        proof {
            reveal_strlit("where");
            reveal_strlit("where_");
        }
        "where_"
    } else if str_eq(name, "while") {
        proof {
            reveal_strlit("while");
            reveal_strlit("while_");
        }
        "while_"
    } else if str_eq(name, "abstract") {
        proof {
            reveal_strlit("abstract");
            reveal_strlit("abstract_");
        }
        "abstract_"
    } else if str_eq(name, "become") {
        proof {
            reveal_strlit("become");
            reveal_strlit("become_");
        }
        "become_"
    } else if str_eq(name, "box") {
        proof {
            reveal_strlit("box");
            reveal_strlit("box_");
        }
        "box_"
    } else if str_eq(name, "do") {
        proof {
            reveal_strlit("do");
            reveal_strlit("do_");
        }
        "do_"
    } else if str_eq(name, "final") {
        proof {
            reveal_strlit("final");
            reveal_strlit("final_");
        }
        "final_"
    } else if str_eq(name, "macro") {
        proof {
            reveal_strlit("macro");
            reveal_strlit("macro_");
        }
        "macro_"
    } else if str_eq(name, "override") {
        proof {
            reveal_strlit("override");
            reveal_strlit("override_");
        }
        "override_"
    } else if str_eq(name, "priv") {
        proof {
            reveal_strlit("priv");
            reveal_strlit("priv_");
        }
        "priv_"
    } else if str_eq(name, "try") {
        proof {
            reveal_strlit("try");
            reveal_strlit("try_");
        }
        "try_"
    } else if str_eq(name, "typeof") {
        proof {
            reveal_strlit("typeof");
            reveal_strlit("typeof_");
        }
        "typeof_"
    } else if str_eq(name, "unsized") {
        proof {
            reveal_strlit("unsized");
            reveal_strlit("unsized_");
        }
        "unsized_"
    } else if str_eq(name, "virtual") {
        proof {
            reveal_strlit("virtual");
            reveal_strlit("virtual_");
        }
        "virtual_"
    } else if str_eq(name, "yield") {
        proof {
            reveal_strlit("yield");
            reveal_strlit("yield_");
        }
        "yield_"
    } else if str_eq(name, "auto_") {
        proof {
            reveal_strlit("auto");
            reveal_strlit("auto_");
        }
        "auto"
    } else if str_eq(name, "bool_") {
        proof {
            reveal_strlit("bool");
            reveal_strlit("bool_");
        }
        "bool"
    } else if str_eq(name, "case_") {
        proof {
            reveal_strlit("case");
            reveal_strlit("case_");
        }
        "case"
    } else if str_eq(name, "catch_") {
        proof {
            reveal_strlit("catch");
            reveal_strlit("catch_");
        }
        "catch"
    } else if str_eq(name, "char_") {
        proof {
            reveal_strlit("char");
            reveal_strlit("char_");
        }
        "char"
    } else if str_eq(name, "class_") {
        proof {
            reveal_strlit("class");
            reveal_strlit("class_");
        }
        "class"
    } else if str_eq(name, "default_") {
        proof {
            reveal_strlit("default");
            reveal_strlit("default_");
        }
        "default"
    } else if str_eq(name, "delete_") {
        proof {
            reveal_strlit("delete");
            reveal_strlit("delete_");
        }
        "delete"
    } else if str_eq(name, "double_") {
        proof {
            reveal_strlit("double");
            reveal_strlit("double_");
        }
        "double"
    } else if str_eq(name, "float_") {
        proof {
            reveal_strlit("float");
            reveal_strlit("float_");
        }
        "float"
    } else if str_eq(name, "friend_") {
        proof {
            reveal_strlit("friend");
            reveal_strlit("friend_");
        }
        "friend"
    } else if str_eq(name, "goto_") {
        proof {
            reveal_strlit("goto");
            reveal_strlit("goto_");
        }
        "goto"
    } else if str_eq(name, "inline_") {
        proof {
            reveal_strlit("inline");
            reveal_strlit("inline_");
        }
        "inline"
    } else if str_eq(name, "int_") {
        proof {
            reveal_strlit("int");
            reveal_strlit("int_");
        }
        "int"
    } else if str_eq(name, "long_") {
        proof {
            reveal_strlit("long");
            reveal_strlit("long_");
        }
        "long"
    } else if str_eq(name, "namespace_") {
        proof {
            reveal_strlit("namespace");
            reveal_strlit("namespace_");
        }
        "namespace"
    } else if str_eq(name, "new_") {
        proof {
            reveal_strlit("new");
            reveal_strlit("new_");
        }
        "new"
    } else if str_eq(name, "operator_") {
        proof {
            reveal_strlit("operator");
            reveal_strlit("operator_");
        }
        "operator"
    } else if str_eq(name, "private_") {
        proof {
            reveal_strlit("private");
            reveal_strlit("private_");
        }
        "private"
    } else if str_eq(name, "protected_") {
        proof {
            reveal_strlit("protected");
            reveal_strlit("protected_");
        }
        "protected"
    } else if str_eq(name, "public_") {
        proof {
            reveal_strlit("public");
            reveal_strlit("public_");
        }
        "public"
    } else if str_eq(name, "register_") {
        proof {
            reveal_strlit("register");
            reveal_strlit("register_");
        }
        "register"
    } else if str_eq(name, "short_") {
        proof {
            reveal_strlit("short");
            reveal_strlit("short_");
        }
        "short"
    } else if str_eq(name, "signed_") {
        proof {
            reveal_strlit("signed");
            reveal_strlit("signed_");
        }
        "signed"
    } else if str_eq(name, "sizeof_") {
        proof {
            reveal_strlit("sizeof");
            reveal_strlit("sizeof_");
        }
        "sizeof"
    } else if str_eq(name, "switch_") {
        proof {
            reveal_strlit("switch");
            reveal_strlit("switch_");
        }
        "switch"
    } else if str_eq(name, "template_") {
        proof {
            reveal_strlit("template");
            reveal_strlit("template_");
        }
        "template"
    } else if str_eq(name, "this_") {
        proof {
            reveal_strlit("this");
            reveal_strlit("this_");
        }
        "this"
    } else if str_eq(name, "throw_") {
        proof {
            reveal_strlit("throw");
            reveal_strlit("throw_");
        }
        "throw"
    } else if str_eq(name, "typedef_") {
        proof {
            reveal_strlit("typedef");
            reveal_strlit("typedef_");
        }
        "typedef"
    } else if str_eq(name, "typename_") {
        proof {
            reveal_strlit("typename");
            reveal_strlit("typename_");
        }
        "typename"
    } else if str_eq(name, "union_") {
        proof {
            reveal_strlit("union");
            reveal_strlit("union_");
        }
        "union"
    } else if str_eq(name, "unsigned_") {
        proof {
            reveal_strlit("unsigned");
            reveal_strlit("unsigned_");
        }
        "unsigned"
    } else if str_eq(name, "void_") {
        proof {
            reveal_strlit("void");
            reveal_strlit("void_");
        }
        "void"
    } else if str_eq(name, "volatile_") {
        proof {
            reveal_strlit("volatile");
            reveal_strlit("volatile_");
        }
        "volatile"
    } else {
        name
    }
}

/// Structure representing text tags of protocol definition XML file (like "description" or
/// "copyright").
#[derive(Clone, Debug)]
pub struct Text {
    pub text: Option<String>,
}

impl Text {
    /// Constructs a text.
    pub fn new(text: Option<String>) -> (result: Self)
        ensures
            result.text == text,
    {
        Text { text: text }
    }
}

/// Structure representing "arg" tag of protocol definition XML file.
#[derive(Clone, Debug)]
pub struct Argument {
    pub name: String,
    pub rust_type: RustType,
    pub description: Text,
}

impl Argument {
    /// Constructs an argument; its name is made valid for generated code.
    pub fn new(name: String, rust_type: RustType, description: Option<String>) -> (result: Self)
        ensures
            result.name@ == valid_name(name@),
            result.rust_type == rust_type,
            result.description.text == description,
    {
        Argument {
            name: String::from_str(validate_name(name.as_str())),
            rust_type: rust_type,
            description: Text::new(description),
        }
    }
}

/// Structure representing "entry" tag of protocol definition XML file.
#[derive(Clone, Debug)]
pub struct Entry {
    pub name: String,
    pub value: String,
}

impl Entry {
    /// Constructs an entry.
    pub fn new(name: String, value: String) -> (result: Self)
        ensures
            result.name == name,
            result.value == value,
    {
        Entry { name: name, value: value }
    }
}

/// Structure representing "enum" tag of protocol definition XML file.
#[derive(Clone, Debug)]
pub struct Enum {
    pub name: String,
    pub description: Text,
    pub entries: Vec<Entry>,
}

impl Enum {
    /// Constructs an enumeration without entries.
    pub fn new(name: String) -> (result: Self)
        ensures
            result.name == name,
            result.description.text is None,
            result.entries@ == Seq::<Entry>::empty(),
    {
        Enum { name: name, description: Text::new(None), entries: Vec::new() }
    }
}

/// Structure representing "request" tag of protocol definition XML file.
#[derive(Clone, Debug)]
pub struct Request {
    pub name: String,
    pub opcode: u16,
    pub description: Text,
    pub arguments: Vec<Argument>,
}

impl Request {
    /// Constructs a request without arguments.
    pub fn new(name: String, opcode: u16) -> (result: Self)
        ensures
            result.name == name,
            result.opcode == opcode,
            result.description.text is None,
            result.arguments@ == Seq::<Argument>::empty(),
    {
        Request { name: name, opcode: opcode, description: Text::new(None), arguments: Vec::new() }
    }
}

/// Structure representing "event" tag of protocol definition XML file.
#[derive(Clone, Debug)]
pub struct Event {
    pub name: String,
    pub opcode: u16,
    pub description: Text,
    pub arguments: Vec<Argument>,
}

impl Event {
    /// Constructs an event without arguments.
    pub fn new(name: String, opcode: u16) -> (result: Self)
        ensures
            result.name == name,
            result.opcode == opcode,
            result.description.text is None,
            result.arguments@ == Seq::<Argument>::empty(),
    {
        Event { name: name, opcode: opcode, description: Text::new(None), arguments: Vec::new() }
    }
}

/// Structure representing "interface" tag of protocol definition XML file.
#[derive(Clone, Debug)]
pub struct Interface {
    pub name: String,
    pub version: u32,
    pub description: Text,
    pub requests: Vec<Request>,
    pub events: Vec<Event>,
    pub enums: Vec<Enum>,
}

impl Interface {
    /// Constructs an interface without requests, events and enumerations.
    pub fn new(name: String, version: u32) -> (result: Self)
        ensures
            result.name == name,
            result.version == version,
            result.description.text is None,
            result.requests@ == Seq::<Request>::empty(),
            result.events@ == Seq::<Event>::empty(),
            result.enums@ == Seq::<Enum>::empty(),
    {
        Interface {
            name: name,
            version: version,
            description: Text::new(None),
            requests: Vec::new(),
            events: Vec::new(),
            enums: Vec::new(),
        }
    }
}

/// Structure representing main tag of protocol definition XML file.
#[derive(Clone, Debug)]
pub struct Document {
    pub description: Text,
    pub protocol: Text,
    pub copyright: Text,
    pub interfaces: Vec<Interface>,
}

impl Document {
    /// Constructs an empty document.
    pub fn new() -> (result: Self)
        ensures
            result.description.text is None,
            result.protocol.text is None,
            result.copyright.text is None,
            result.interfaces@ == Seq::<Interface>::empty(),
    {
        Document {
            description: Text::new(None),
            protocol: Text::new(None),
            copyright: Text::new(None),
            interfaces: Vec::new(),
        }
    }
}

/// Contents of an optional text tag.
pub open spec fn text_view(text: Text) -> Option<Seq<char>> {
    match text.text {
        Some(t) => Some(t@),
        None => None,
    }
}

impl View for Text {
    type V = Option<Seq<char>>;

    open spec fn view(&self) -> Option<Seq<char>> {
        text_view(*self)
    }
}

/// Contents of an "arg" tag.
pub struct ArgumentView {
    pub name: Seq<char>,
    pub rust_type: RustType,
    pub description: Option<Seq<char>>,
}

/// Contents of an "entry" tag.
pub struct EntryView {
    pub name: Seq<char>,
    pub value: Seq<char>,
}

/// Contents of an "enum" tag.
#[verifier::ext_equal]
pub struct EnumView {
    pub name: Seq<char>,
    pub description: Option<Seq<char>>,
    pub entries: Seq<EntryView>,
}

/// Contents of a "request" or an "event" tag.
#[verifier::ext_equal]
pub struct MessageView {
    pub name: Seq<char>,
    pub opcode: u16,
    pub description: Option<Seq<char>>,
    pub arguments: Seq<ArgumentView>,
}

/// Contents of an "interface" tag.
#[verifier::ext_equal]
pub struct InterfaceView {
    pub name: Seq<char>,
    pub version: u32,
    pub description: Option<Seq<char>>,
    pub requests: Seq<MessageView>,
    pub events: Seq<MessageView>,
    pub enums: Seq<EnumView>,
}

/// Contents of a protocol definition.
#[verifier::ext_equal]
pub struct DocumentView {
    pub description: Option<Seq<char>>,
    pub protocol: Option<Seq<char>>,
    pub copyright: Option<Seq<char>>,
    pub interfaces: Seq<InterfaceView>,
}

impl View for Argument {
    type V = ArgumentView;

    open spec fn view(&self) -> ArgumentView {
        ArgumentView {
            name: self.name@,
            rust_type: self.rust_type,
            description: text_view(self.description),
        }
    }
}

impl View for Entry {
    type V = EntryView;

    open spec fn view(&self) -> EntryView {
        EntryView { name: self.name@, value: self.value@ }
    }
}

impl View for Enum {
    type V = EnumView;

    open spec fn view(&self) -> EnumView {
        EnumView {
            name: self.name@,
            description: text_view(self.description),
            entries: self.entries@.map_values(|e: Entry| e@),
        }
    }
}

/// The views of a list of arguments.
pub open spec fn arguments_view(arguments: Seq<Argument>) -> Seq<ArgumentView> {
    arguments.map_values(|a: Argument| a@)
}

impl View for Request {
    type V = MessageView;

    open spec fn view(&self) -> MessageView {
        MessageView {
            name: self.name@,
            opcode: self.opcode,
            description: text_view(self.description),
            arguments: arguments_view(self.arguments@),
        }
    }
}

impl View for Event {
    type V = MessageView;

    open spec fn view(&self) -> MessageView {
        MessageView {
            name: self.name@,
            opcode: self.opcode,
            description: text_view(self.description),
            arguments: arguments_view(self.arguments@),
        }
    }
}

impl View for Interface {
    type V = InterfaceView;

    open spec fn view(&self) -> InterfaceView {
        InterfaceView {
            name: self.name@,
            version: self.version,
            description: text_view(self.description),
            requests: self.requests@.map_values(|r: Request| r@),
            events: self.events@.map_values(|e: Event| e@),
            enums: self.enums@.map_values(|e: Enum| e@),
        }
    }
}

impl View for Document {
    type V = DocumentView;

    open spec fn view(&self) -> DocumentView {
        DocumentView {
            description: text_view(self.description),
            protocol: text_view(self.protocol),
            copyright: text_view(self.copyright),
            interfaces: self.interfaces@.map_values(|i: Interface| i@),
        }
    }
}

/// Number of arguments that take room in the message: all but the file descriptors.
pub open spec fn wire_argument_count(arguments: Seq<ArgumentView>) -> nat
    decreases arguments.len(),
{
    if arguments.len() == 0 {
        0
    } else {
        wire_argument_count(arguments.drop_last()) + if arguments.last().rust_type == RustType::FD {
            0nat
        } else {
            1nat
        }
    }
}

/// Size of a message with the given arguments: eight bytes of header and four for each argument
/// that is not a file descriptor, not counting the contents of strings and arrays.
pub open spec fn constant_size(arguments: Seq<ArgumentView>) -> int {
    8 + 4 * (wire_argument_count(arguments) as int)
}

/// Whether an argument of the given type has variable size.
pub open spec fn is_variable(rust_type: RustType) -> bool {
    rust_type == RustType::String || rust_type == RustType::Array
}

/// Names and kinds of the arguments of variable size, in order.
pub open spec fn variable_names(arguments: Seq<ArgumentView>) -> Seq<(Seq<char>, RustType)>
    decreases arguments.len(),
{
    if arguments.len() == 0 {
        Seq::empty()
    } else {
        let rest = variable_names(arguments.drop_last());
        let last = arguments.last();
        if is_variable(last.rust_type) {
            rest.push((last.name, last.rust_type))
        } else {
            rest
        }
    }
}

/// Name and kind of a variable-sized argument.
pub open spec fn variable_view(v: VariableType) -> (Seq<char>, RustType) {
    match v {
        VariableType::String(name) => (name@, RustType::String),
        VariableType::Array(name) => (name@, RustType::Array),
    }
}

/// Helper struct for calculating message size. Constant size is kept in `size` field, while `names`
/// contains names of variable size arguments to be put in generated code.
#[derive(Debug)]
pub struct MessageSize {
    pub size: usize,
    pub names: Vec<VariableType>,
}

impl MessageSize {
    /// Names and kinds of the variable-sized arguments.
    pub open spec fn spec_names(&self) -> Seq<(Seq<char>, RustType)> {
        self.names@.map_values(|v: VariableType| variable_view(v))
    }

    /// Calculates message size from given arguments including header size.
    pub fn from_arguments(arguments: &Vec<Argument>) -> (result: Self)
        requires
            8 + 4 * arguments@.len() <= usize::MAX,
        ensures
            result.size == constant_size(arguments_view(arguments@)),
            result.spec_names() == variable_names(arguments_view(arguments@)),
    {
        let mut message_size = MessageSize { size: 8, names: Vec::new() };
        let mut i: usize = 0;
        while i < arguments.len()
            invariant
                i <= arguments.len(),
                8 + 4 * arguments@.len() <= usize::MAX,
                wire_argument_count(arguments_view(arguments@).take(i as int)) <= i,
                message_size.size == constant_size(arguments_view(arguments@).take(i as int)),
                message_size.spec_names() == variable_names(arguments_view(arguments@).take(i as int)),
            decreases arguments.len() - i,
        {
            let arg = &arguments[i];
            proof {
                let views = arguments_view(arguments@);
                assert(views.take(i + 1).drop_last() =~= views.take(i as int));
                assert(views.take(i + 1).last() == arguments@[i as int]@);
            }
            let ghost names_before = message_size.spec_names();
            match arg.rust_type.get_size() {
                Size::Constant(size) => message_size.size = message_size.size + size,
                Size::String(size) => {
                    message_size.size = message_size.size + size;
                    message_size.names.push(VariableType::String(arg.name.clone()));
                    assert(message_size.spec_names() =~= names_before.push(
                        (arg.name@, RustType::String),
                    ));
                },
                Size::Array(size) => {
                    message_size.size = message_size.size + size;
                    message_size.names.push(VariableType::Array(arg.name.clone()));
                    assert(message_size.spec_names() =~= names_before.push(
                        (arg.name@, RustType::Array),
                    ));
                },
            }
            i = i + 1;
        }
        assert(arguments_view(arguments@).take(arguments@.len() as int) =~= arguments_view(
            arguments@,
        ));
        message_size
    }

    /// Checks if message does not contain variable size arguments.
    pub fn is_constant(&self) -> (result: bool)
        ensures
            result == (self.names@.len() == 0),
    {
        self.names.len() == 0
    }

    /// Check if message contains string.
    pub fn contains_string(&self) -> (result: bool)
        ensures
            result == exists|i: int|
                0 <= i < self.names@.len() && #[trigger] self.names@[i] is String,
    {
        let mut i: usize = 0;
        while i < self.names.len()
            invariant
                i <= self.names.len(),
                forall|k: int| 0 <= k < i ==> !(#[trigger] self.names@[k] is String),
            decreases self.names.len() - i,
        {
            match &self.names[i] {
                VariableType::String(_) => return true,
                _ => (),
            }
            i = i + 1;
        }
        false
    }
}

/// There are no variable-sized arguments exactly when no argument is a string or an array.
pub proof fn lemma_no_variable_names(arguments: Seq<ArgumentView>)
    ensures
        (variable_names(arguments).len() == 0) <==> !has_type(arguments, RustType::String)
            && !has_type(arguments, RustType::Array),
    decreases arguments.len(),
{
    if arguments.len() > 0 {
        let rest = arguments.drop_last();
        lemma_no_variable_names(rest);
        let last = arguments.len() - 1;
        if has_type(rest, RustType::String) {
            let k = choose|k: int| 0 <= k < rest.len() && rest[k].rust_type == RustType::String;
            assert(arguments[k] == rest[k]);
        }
        if has_type(rest, RustType::Array) {
            let k = choose|k: int| 0 <= k < rest.len() && rest[k].rust_type == RustType::Array;
            assert(arguments[k] == rest[k]);
        }
        if has_type(arguments, RustType::String) {
            let k = choose|k: int| 0 <= k < arguments.len() && arguments[k].rust_type == RustType::String;
            if k < last {
                assert(rest[k] == arguments[k]);
            }
        }
        if has_type(arguments, RustType::Array) {
            let k = choose|k: int| 0 <= k < arguments.len() && arguments[k].rust_type == RustType::Array;
            if k < last {
                assert(rest[k] == arguments[k]);
            }
        }
    }
}

/// For a message size computed by `MessageSize::from_arguments`: `is_constant` holds exactly when
/// no argument is a string or an array, `contains_string` holds exactly when some argument is a
/// string, and a message that contains a string is never constant. (`is_constant` states that the
/// list of names is empty; `contains_string` that some name is a string.)
pub proof fn lemma_message_size_kinds(message_size: MessageSize, arguments: Seq<Argument>)
    requires
        message_size.spec_names() == variable_names(arguments_view(arguments)),
    ensures
        (message_size.names@.len() == 0) <==> (forall|i: int|
            0 <= i < arguments.len() ==> #[trigger] arguments[i].rust_type != RustType::String
                && arguments[i].rust_type != RustType::Array),
        (exists|i: int| 0 <= i < message_size.names@.len() && #[trigger] message_size.names@[i] is String)
            <==> (exists|i: int|
            0 <= i < arguments.len() && #[trigger] arguments[i].rust_type == RustType::String),
        (exists|i: int| 0 <= i < message_size.names@.len() && #[trigger] message_size.names@[i] is String)
            ==> message_size.names@.len() != 0,
{
    let views = arguments_view(arguments);
    lemma_no_variable_names(views);
    lemma_variable_string(views);
    let names = message_size.names@;
    let spec_names = message_size.spec_names();
    assert(spec_names.len() == names.len());
    assert forall|i: int| 0 <= i < arguments.len() implies views[i].rust_type == #[trigger] arguments[i].rust_type by {
    }
    if exists|i: int| 0 <= i < arguments.len() && #[trigger] arguments[i].rust_type == RustType::String {
        let k = choose|i: int| 0 <= i < arguments.len() && #[trigger] arguments[i].rust_type == RustType::String;
        assert(views[k].rust_type == RustType::String);
        let j = choose|j: int| 0 <= j < spec_names.len() && (#[trigger] spec_names[j]).1 == RustType::String;
        assert(spec_names[j] == variable_view(names[j]));
        assert(names[j] is String);
    }
    if exists|i: int| 0 <= i < names.len() && #[trigger] names[i] is String {
        let j = choose|i: int| 0 <= i < names.len() && #[trigger] names[i] is String;
        assert(spec_names[j] == variable_view(names[j]));
        assert(spec_names[j].1 == RustType::String);
        let k = choose|k: int| 0 <= k < views.len() && views[k].rust_type == RustType::String;
        assert(arguments[k].rust_type == RustType::String);
    }
    if has_type(views, RustType::String) {
        let k = choose|k: int| 0 <= k < views.len() && views[k].rust_type == RustType::String;
        assert(arguments[k].rust_type == RustType::String);
    }
    if has_type(views, RustType::Array) {
        let k = choose|k: int| 0 <= k < views.len() && views[k].rust_type == RustType::Array;
        assert(arguments[k].rust_type == RustType::Array);
    }
}

/// An attribute of an XML element: its local name and its value.
#[derive(Clone, Debug)]
pub struct Attribute {
    pub name: String,
    pub value: String,
}

/// Value of the first attribute with the given name, if any.
pub open spec fn attribute_value(name: Seq<char>, attributes: Seq<Attribute>) -> Option<Seq<char>>
    decreases attributes.len(),
{
    if attributes.len() == 0 {
        None
    } else if attributes[0].name@ == name {
        Some(attributes[0].value@)
    } else {
        attribute_value(name, attributes.drop_first())
    }
}

/// Searches given optional attribute in attribute list and return value.
pub fn get_optional_attr(name: &str, attributes: &Vec<Attribute>) -> (result: Option<String>)
    ensures
        match attribute_value(name@, attributes@) {
            Some(v) => result is Some && result->0@ == v,
            None => result is None,
        },
{
    let mut i: usize = 0;
    assert(attributes@.subrange(0, attributes@.len() as int) =~= attributes@);
    while i < attributes.len()
        invariant
            i <= attributes.len(),
            attribute_value(name@, attributes@) == attribute_value(
                name@,
                attributes@.subrange(i as int, attributes@.len() as int),
            ),
        decreases attributes.len() - i,
    {
        let ghost rest = attributes@.subrange(i as int, attributes@.len() as int);
        assert(rest[0] == attributes@[i as int]);
        assert(rest.drop_first() =~= attributes@.subrange(i + 1, attributes@.len() as int));
        if str_eq(attributes[i].name.as_str(), name) {
            return Some(attributes[i].value.clone());
        }
        i = i + 1;
    }
    None
}

/// Searches given mandatory attribute in attribute list and return value.
pub fn get_attr(name: &str, attributes: &Vec<Attribute>) -> (result: Result<String, super::Error>)
    ensures
        match attribute_value(name@, attributes@) {
            Some(v) => result is Ok && result->Ok_0@ == v,
            None => result is Err && result->Err_0@ == super::ErrorView::Element(
                "Attribute '"@ + name@ + "' not found"@,
            ),
        },
{
    match get_optional_attr(name, attributes) {
        Some(value) => Ok(value),
        None => {
            let mut message = String::from_str("Attribute '");
            message.append(name);
            message.append("' not found");
            Err(super::Error::Element(message))
        },
    }
}

} // verus!
