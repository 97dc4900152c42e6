use perceptia::scanner::aggregator::{Aggregator, XmlEvent};
use perceptia::scanner::code_buffer::Buffer;
use perceptia::scanner::model::{
    get_attr, get_optional_attr, validate_name, Argument, Attribute, MessageSize, RustType, Size,
};
use perceptia::scanner::{Error, Scanner};

const PROTOCOL: &str = r#"<?xml version="1.0" encoding="UTF-8"?>
<protocol name="test">
  <copyright>Copyright</copyright>
  <interface name="wl_thing" version="3">
    <description summary="a thing">Thing.</description>
    <request name="move">
      <arg name="x" type="int"/>
      <arg name="label" type="string" summary="the label"/>
    </request>
    <event name="done">
      <arg name="serial" type="uint" summary="serial number"/>
    </event>
    <enum name="error">
      <entry name="invalid" value="0"/>
      <entry name="2d" value="1"/>
    </enum>
  </interface>
</protocol>
"#;

fn expected_server_code() -> String {
    let lines: Vec<&str> = vec![
        "",
        "pub mod wl_thing {",
        "    use std;",
        "    use byteorder::WriteBytesExt;",
        "    use byteorder::ReadBytesExt;",
        "    use byteorder::NativeEndian;",
        "    use skylane::common::{SkylaneError, Header, ObjectId};",
        "    use skylane::server::{ClientSocket, Task};",
        "    use super::super::Dispatcher as Disp;",
        "",
        "    pub const NAME: &'static str = \"wl_thing\";",
        "    pub const VERSION: u32 = 3;",
        "",
        "    pub mod error {",
        "        pub const INVALID: u32 = 0;",
        "        pub const _2D: u32 = 1;",
        "    }",
        "",
        "    pub trait Interface {",
        "",
        "        fn move_ (",
        "            &mut self,",
        "            this_object_id: ObjectId,",
        "            socket: &mut ClientSocket,",
        "            x: i32,",
        "            label: String,",
        "        ) -> Task;",
        "    }",
        "",
        "    pub fn done (",
        "        _socket: &ClientSocket,",
        "        _id: ObjectId,",
        "        serial: u32, // serial number",
        "    ) -> Result<(), SkylaneError> {",
        "        if let Some(_logger) = _socket.get_logger() {",
        "            _logger(format!(\" <-- test::wl_thing@{}.done(serial: {:?})\",",
        "                _id,",
        "                serial,",
        "            ));",
        "        }",
        "        let mut _bytes: [u8; 12] = unsafe { std::mem::uninitialized() };",
        "        {",
        "            let mut _bytes_buf = std::io::Cursor::new(&mut _bytes[..]);",
        "            _bytes_buf.write_u32::<NativeEndian>(_id.get_value())?;",
        "            _bytes_buf.write_u16::<NativeEndian>(0)?;",
        "            _bytes_buf.write_u16::<NativeEndian>(12)?;",
        "            _bytes_buf.write_u32::<NativeEndian>(serial)?;",
        "        }",
        "        _socket.write(&_bytes[..])?;",
        "        Ok(())",
        "    }",
        "",
        "    pub struct Dispatcher {}",
        "",
        "    impl<I: Interface> Disp<I> for Dispatcher {",
        "        fn new() -> Self {",
        "            Dispatcher {}",
        "        }",
        "",
        "        fn dispatch (",
        "            &mut self,",
        "            _object: &mut I,",
        "            _socket: &mut ClientSocket,",
        "            _header: &Header,",
        "            _bytes_buf: &mut std::io::Cursor<&[u8]>,",
        "            _fds_buf: &mut std::io::Cursor<&[u8]>,",
        "        ) -> Result<Task, SkylaneError> {",
        "            match _header.opcode {",
        "                0 => {",
        "                    let x = _bytes_buf.read_i32::<NativeEndian>()?;",
        "                    let _label_len = _bytes_buf.read_u32::<NativeEndian>()? - 1;",
        "                    let _label_size = (_label_len / 4) * 4 + 4;",
        "                    let _label_padding = _label_size - _label_len;",
        "                    let mut label = String::with_capacity(_label_len as usize);",
        "                    for _ in 0 .. _label_len {",
        "                        let c = _bytes_buf.read_u8()?;",
        "                        if c != 0 { label.push(c as char) }",
        "                    }",
        "                    for _ in 0 .. _label_padding {",
        "                        let _ = _bytes_buf.read_u8()?;",
        "                    }",
        "                    if let Some(_logger) = _socket.get_logger() {",
        "                        _logger(format!(\"--> test::wl_thing@{}.move(x: {:?}, label: '{}')\",",
        "                            _header.object_id,",
        "                            x,",
        "                            label,",
        "                        ));",
        "                    }",
        "                    Ok( _object.move_ (",
        "                        ObjectId::new(_header.object_id),",
        "                        _socket,",
        "                        x,",
        "                        label,",
        "                    ))",
        "                }",
        "                _ => {",
        "                    Err(SkylaneError::WrongOpcode { name: NAME, object_id: _header.object_id, opcode: _header.opcode })",
        "                }",
        "            }",
        "        }",
        "    }",
        "}",
    ];
    let mut text = lines.join("\n");
    text.push('\n');
    text
}

#[test]
fn scanner_generates_server_code_for_a_protocol() {
    let mut scanner = Scanner::new(PROTOCOL.as_bytes()).expect("protocol is valid");
    assert_eq!(scanner.get_protocol_name().unwrap(), "test");
    assert!(scanner.can_generate_server_interface());
    let code = scanner.generate_server_interface(0);
    assert_eq!(code, expected_server_code());
}

#[test]
fn scanner_indents_server_code() {
    let mut scanner = Scanner::new(PROTOCOL.as_bytes()).expect("protocol is valid");
    let code = scanner.generate_server_interface(1);
    let expected: Vec<String> = expected_server_code()
        .split('\n')
        .map(|line| if line.is_empty() { String::new() } else { format!("    {}", line) })
        .collect();
    assert_eq!(code, expected.join("\n"));
}

#[test]
fn scanner_generates_no_client_code() {
    let mut scanner = Scanner::new(PROTOCOL.as_bytes()).expect("protocol is valid");
    assert_eq!(scanner.generate_client_interface(0), "");
}

#[test]
fn scanner_sends_strings_arrays_and_descriptors() {
    let protocol = r#"<protocol name="p">
  <interface name="i" version="1">
    <event name="e">
      <arg name="s" type="string"/>
      <arg name="a" type="array"/>
      <arg name="f" type="fd"/>
      <arg name="v" type="fixed"/>
      <arg name="o" type="object"/>
    </event>
  </interface>
</protocol>"#;
    let mut scanner = Scanner::new(protocol.as_bytes()).expect("protocol is valid");
    let code = scanner.generate_server_interface(0);
    assert!(code.contains("    use std::os::unix::io::RawFd;\n    use std::io::Write;\n"));
    assert!(!code.contains("ReadBytesExt"));
    assert!(code.contains("        s: &str,\n        a: &[u32],\n        f: RawFd,\n        v: f32,\n        o: ObjectId,\n"));
    assert!(code.contains("(s: '{}', a: {:?}, f: {:?}, v: {:?}, o: {:?})\",\n"));
    assert!(code.contains(&[
        "        let _s_len = s.len();\n",
        "        let _s_size = (_s_len / 4) * 4 + 4;\n",
        "        let _s_padding = _s_size - _s_len;\n",
        "        let _a_len = a.len();\n",
        "        let _a_size = 4 * _a_len;\n",
        "                let _msg_len = 24 + _s_size + _a_size;\n",
        "        let mut _bytes = Vec::<u8>::with_capacity(_msg_len);\n",
        "        unsafe { _bytes.set_len(_msg_len); }\n",
        "        let mut _fds_pos = 0;\n",
        "        let mut _fds: [RawFd; 1] = unsafe { std::mem::uninitialized() };\n",
        "        {\n",
        "            let mut _bytes_buf = std::io::Cursor::new(_bytes.as_mut_slice());\n",
    ].concat()));
    assert!(code.contains("            _bytes_buf.write_u16::<NativeEndian>(_msg_len as u16)?;\n"));
    assert!(code.contains(&[
        "            _bytes_buf.write_u32::<NativeEndian>(_s_len as u32 + 1)?;\n",
        "            _bytes_buf.write(s.as_bytes())?;\n",
        "            for _ in 0..(_s_padding) {\n",
        "                _bytes_buf.write_u8(0)?;\n",
        "            }\n",
        "            _bytes_buf.write_u32::<NativeEndian>(_a_size as u32)?;\n",
        "            for &_e in a {\n",
        "                _bytes_buf.write_u32::<NativeEndian>(_e)?;\n",
        "            }\n",
        "            _fds[_fds_pos] = f;\n",
        "            _fds_pos += 1;\n",
        "            _bytes_buf.write_i32::<NativeEndian>(((v as f64) * 256.0) as i32)?;\n",
        "            _bytes_buf.write_u32::<NativeEndian>(o.get_value())?;\n",
        "        }\n",
        "        _socket.write_with_control_data(&_bytes[..], &_fds[..])?;\n",
    ].concat()));
}

#[test]
fn scanner_refuses_requests_with_arrays() {
    let protocol = r#"<protocol name="p">
  <interface name="i" version="1">
    <request name="r"><arg name="a" type="array"/></request>
  </interface>
</protocol>"#;
    let scanner = Scanner::new(protocol.as_bytes()).expect("protocol is valid");
    assert!(!scanner.can_generate_server_interface());
}

#[test]
fn scanner_reports_missing_protocol_name() {
    let mut scanner = Scanner::new(b"<interface name=\"i\" version=\"1\"></interface>").unwrap();
    match scanner.get_protocol_name() {
        Err(Error::Element(message)) => assert_eq!(message, "Protocol name not found"),
        other => panic!("unexpected {:?}", other),
    }
}

fn element_error(text: &str) -> String {
    match Scanner::new(text.as_bytes()) {
        Err(Error::Element(message)) => message,
        Err(other) => panic!("unexpected error {:?}", other),
        Ok(_) => panic!("unexpected success"),
    }
}

#[test]
fn scanner_reports_errors_in_definitions() {
    assert_eq!(
        element_error("<protocol name=\"p\"><interface version=\"1\"></interface></protocol>"),
        "Attribute 'name' not found"
    );
    assert_eq!(
        element_error("<protocol name=\"p\"><interface name=\"i\"></interface></protocol>"),
        "Attribute 'version' not found"
    );
    assert_eq!(
        element_error(
            "<protocol name=\"p\"><interface name=\"i\" version=\"1\"><event name=\"e\"><arg name=\"a\" type=\"long\"/></event></interface></protocol>"
        ),
        "Unknown type 'long'"
    );
    assert_eq!(
        element_error("<protocol name=\"p\"><widget/></protocol>"),
        "Unexpected start of element 'widget'"
    );
    assert_eq!(
        element_error("<protocol name=\"p\"><copyright><b/></copyright></protocol>"),
        "Unexpected start of element b"
    );
    match Scanner::new(b"<protocol name=\"p\"><interface name=\"i\" version=\"x\"></interface></protocol>") {
        Err(Error::ParseInt(message)) => assert_eq!(message, "invalid digit found in string"),
        other => panic!("unexpected {:?}", other.err()),
    }
    match Scanner::new(b"<protocol name=\"p\"><interface") {
        Err(Error::Xml(message)) => assert!(!message.is_empty()),
        other => panic!("unexpected {:?}", other.err()),
    }
}

fn start(name: &str, attributes: Vec<(&str, &str)>) -> XmlEvent {
    XmlEvent::StartElement {
        name: name.to_string(),
        display_name: name.to_string(),
        attributes: attributes
            .into_iter()
            .map(|(n, v)| Attribute { name: n.to_string(), value: v.to_string() })
            .collect(),
    }
}

fn end(name: &str) -> XmlEvent {
    XmlEvent::EndElement { name: name.to_string() }
}

#[test]
fn aggregator_reads_events() {
    let events = vec![
        XmlEvent::Other,
        start("protocol", vec![("name", "p")]),
        start("interface", vec![("name", "i"), ("version", "+7")]),
        start("request", vec![("name", "first")]),
        end("request"),
        start("request", vec![("name", "second")]),
        start("arg", vec![("name", "move"), ("type", "uint")]),
        end("arg"),
        end("request"),
        start("enum", vec![("name", "e")]),
        start("description", vec![]),
        XmlEvent::Characters("old".to_string()),
        XmlEvent::Characters("new".to_string()),
        end("description"),
        start("entry", vec![("name", "a"), ("value", "1")]),
        end("entry"),
        end("enum"),
        end("interface"),
        end("protocol"),
        XmlEvent::EndDocument,
    ];
    let document = Aggregator::new(&events).aggregate().expect("events are valid");
    assert_eq!(document.protocol.text, Some("p".to_string()));
    assert_eq!(document.interfaces.len(), 1);
    let interface = &document.interfaces[0];
    assert_eq!(interface.name, "i");
    assert_eq!(interface.version, 7);
    assert_eq!(interface.requests.len(), 2);
    assert_eq!(interface.requests[0].opcode, 0);
    assert_eq!(interface.requests[1].opcode, 1);
    assert_eq!(interface.requests[1].arguments[0].name, "move_");
    assert_eq!(interface.enums[0].description.text, Some("new".to_string()));
    assert_eq!(interface.enums[0].entries[0].value, "1");
}

#[test]
fn aggregator_stops_at_end_of_events() {
    let events = vec![start("protocol", vec![("name", "p")])];
    let document = Aggregator::new(&events).aggregate().expect("a document may end early");
    assert_eq!(document.protocol.text, Some("p".to_string()));

    let events = vec![start("interface", vec![("name", "i"), ("version", "1")])];
    match Aggregator::new(&events).aggregate() {
        Err(Error::Element(message)) => assert_eq!(message, "Unexpected end of document"),
        other => panic!("unexpected {:?}", other.err()),
    }

    let events = vec![
        start("interface", vec![("name", "i"), ("version", "1")]),
        start("request", vec![("name", "r")]),
        end("arg"),
        end("description"),
    ];
    match Aggregator::new(&events).aggregate() {
        Err(Error::Element(message)) => assert_eq!(message, "Unexpected end of element description"),
        other => panic!("unexpected {:?}", other.err()),
    }

    let events = vec![XmlEvent::Error("broken".to_string()), XmlEvent::EndDocument];
    match Aggregator::new(&events).aggregate() {
        Err(Error::Xml(message)) => assert_eq!(message, "broken"),
        other => panic!("unexpected {:?}", other.err()),
    }
}

#[test]
fn rust_types_are_read_from_their_names() {
    assert_eq!(RustType::from_raw("object").unwrap(), RustType::Object);
    assert_eq!(RustType::from_raw("new_id").unwrap(), RustType::NewId);
    assert_eq!(RustType::from_raw("fd").unwrap(), RustType::FD);
    match RustType::from_raw("float") {
        Err(Error::Element(message)) => assert_eq!(message, "Unknown type 'float'"),
        other => panic!("unexpected {:?}", other),
    }
    assert_eq!(RustType::String.to_input_str(), "&str");
    assert_eq!(RustType::String.to_output_str(), "String");
    assert_eq!(RustType::Fixed.get_size(), Size::Constant(4));
    assert_eq!(RustType::Array.get_size(), Size::Array(4));
    assert_eq!(RustType::FD.get_size(), Size::Constant(0));
}

#[test]
fn names_are_made_valid() {
    assert_eq!(validate_name("move"), "move_");
    assert_eq!(validate_name("class_"), "class");
    assert_eq!(validate_name("other"), "other");
    assert_eq!(validate_name("type"), "type_");
    assert_eq!(validate_name("move_"), "move_");
    assert_eq!(validate_name("surface"), "surface");
    assert_eq!(validate_name("new_"), "new");
    assert_eq!(validate_name("new"), "new");
    assert_eq!(validate_name("fn"), "fn_");
}

#[test]
fn attributes_are_found_by_name() {
    let attributes = vec![
        Attribute { name: "name".to_string(), value: "first".to_string() },
        Attribute { name: "name".to_string(), value: "second".to_string() },
    ];
    assert_eq!(get_attr("name", &attributes).unwrap(), "first");
    assert_eq!(get_optional_attr("summary", &attributes), None);
    match get_attr("summary", &attributes) {
        Err(Error::Element(message)) => assert_eq!(message, "Attribute 'summary' not found"),
        other => panic!("unexpected {:?}", other),
    }
}

#[test]
fn message_size_counts_constant_and_variable_arguments() {
    let arguments = vec![
        Argument::new("a".to_string(), RustType::UInt, None),
        Argument::new("b".to_string(), RustType::String, None),
        Argument::new("c".to_string(), RustType::Array, None),
    ];
    let size = MessageSize::from_arguments(&arguments);
    assert_eq!(size.size, 20);
    assert!(!size.is_constant());
    assert!(size.contains_string());
    let size = MessageSize::from_arguments(&vec![]);
    assert_eq!(size.size, 8);
    assert!(size.is_constant());
    assert!(!size.contains_string());
    let size = MessageSize::from_arguments(&vec![Argument::new("f".to_string(), RustType::FD, None)]);
    assert_eq!(size.size, 8);
    assert!(size.is_constant());
    let constant = vec![
        Argument::new("u".to_string(), RustType::UInt, None),
        Argument::new("i".to_string(), RustType::Int, None),
        Argument::new("o".to_string(), RustType::Object, None),
        Argument::new("f".to_string(), RustType::FD, None),
    ];
    let size = MessageSize::from_arguments(&constant);
    assert_eq!(size.size, 20);
    assert!(size.is_constant());
    assert!(!size.contains_string());
    let size = MessageSize::from_arguments(&vec![Argument::new("a".to_string(), RustType::Array, None)]);
    assert!(!size.is_constant());
    assert!(!size.contains_string());
}

#[test]
fn buffer_builds_indented_lines() {
    let mut buffer = Buffer::new(1);
    buffer.push_line("a");
    buffer.increase_indent();
    buffer.push_indent();
    buffer.push("b, ");
    buffer.pop(2);
    buffer.push_end_of_line();
    buffer.decrease_indent();
    buffer.push_line("}");
    assert_eq!(buffer.get_content(), "    a\n        b\n    }\n");
    buffer.pop(100);
    assert_eq!(buffer.get_content(), "");
    buffer.push("x").push(", ").push_line("y").increase_indent().push_line("z");
    assert_eq!(buffer.get_content(), "x,     y\n        z\n");
}
