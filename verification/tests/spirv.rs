use autograph::interface::verify_spirv_interface;
use autograph::interface::verify_spirv_interface_checked;
use autograph::interface::InterfaceError;
use autograph::interface::TypeCheckError;
use autograph::shader_interface::PrimitiveType;
use autograph::shader_interface::ShaderInterfaceDesc;
use autograph::shader_interface::TypeDesc;
use autograph::shader_interface::UniformConstantDesc;
use autograph::spirv_parse::parse_spirv;
use autograph::spirv_parse::parse_spirv_checked;
use autograph::spirv_parse::parse_spirv_u32s;
use autograph::spirv_parse::parse_spirv_u32s_checked;
use autograph::spirv_parse::Instruction;
use autograph::spirv_parse::ParseError;

fn op(opcode: u32, operands: &[u32]) -> Vec<u32> {
    let mut v = vec![((operands.len() as u32 + 1) << 16) | opcode];
    v.extend_from_slice(operands);
    v
}

fn header() -> Vec<u32> {
    vec![0x07230203, 0x0001_0300, 0, 10, 0]
}

/// A module declaring `uniform vec4 color` at location 3.
fn color_module() -> Vec<u32> {
    let mut m = header();
    m.extend(op(17, &[1]));
    m.extend(op(14, &[0, 1]));
    m.extend(op(5, &[5, 0x6f6c6f63, 0x72]));
    m.extend(op(71, &[5, 30, 3]));
    m.extend(op(22, &[1, 32]));
    m.extend(op(23, &[2, 1, 4]));
    m.extend(op(32, &[3, 2, 2]));
    m.extend(op(59, &[3, 5, 2]));
    m
}

/// A module declaring a uniform block `{ vec4; float; }` at location 1.
fn block_module(second_is_vec3: bool) -> Vec<u32> {
    let mut m = header();
    m.extend(op(22, &[1, 32]));
    m.extend(op(23, &[2, 1, 4]));
    m.extend(op(23, &[8, 1, 3]));
    if second_is_vec3 {
        m.extend(op(30, &[4, 8, 1]));
    } else {
        m.extend(op(30, &[4, 2, 1]));
    }
    m.extend(op(32, &[6, 2, 4]));
    m.extend(op(59, &[6, 7, 2]));
    m.extend(op(71, &[7, 30, 1]));
    m
}

fn interface_with(u: UniformConstantDesc) -> ShaderInterfaceDesc {
    ShaderInterfaceDesc {
        uniform_buffers: vec![],
        uniform_constants: vec![u],
        render_targets: vec![],
        vertex_buffers: vec![],
        index_buffer: None,
        texture_bindings: vec![],
    }
}

fn le_bytes(words: &[u32]) -> Vec<u8> {
    words.iter().flat_map(|w| w.to_le_bytes()).collect()
}

fn be_bytes(words: &[u32]) -> Vec<u8> {
    words.iter().flat_map(|w| w.to_be_bytes()).collect()
}

#[test]
fn parses_header_and_instructions() {
    let m = parse_spirv_u32s(&color_module()).unwrap();
    assert_eq!(m.version, (1, 3));
    assert_eq!(m.bound, 10);
    assert_eq!(m.instructions.len(), 8);
    assert!(matches!(&m.instructions[0], Instruction::Capability(c) if c.0 == 1));
    assert!(matches!(&m.instructions[1], Instruction::MemoryModel(mm) if mm.0 == 0 && mm.1 == 1));
    assert!(matches!(&m.instructions[2], Instruction::Name(n) if n.target_id == 5 && n.name == "color"));
    assert!(matches!(&m.instructions[3], Instruction::Decorate(d) if d.target_id == 5 && d.decoration == 30 && d.params == vec![3]));
    assert!(matches!(&m.instructions[4], Instruction::TypeFloat(t) if t.result_id == 1 && t.width == 32));
    assert!(matches!(&m.instructions[5], Instruction::TypeVector(t) if t.component_id == 1 && t.count == 4));
    assert!(matches!(&m.instructions[6], Instruction::TypePointer(t) if t.storage_class == 2 && t.type_id == 2));
    assert!(matches!(&m.instructions[7], Instruction::Variable(v) if v.result_id == 5 && v.initializer.is_none()));
}

#[test]
fn parses_both_byte_orders() {
    let words = color_module();
    let le = parse_spirv(&le_bytes(&words)).unwrap();
    let be = parse_spirv(&be_bytes(&words)).unwrap();
    assert_eq!(le.instructions.len(), 8);
    assert_eq!(be.instructions.len(), 8);
    assert_eq!(le.version, be.version);
    assert!(matches!(&be.instructions[2], Instruction::Name(n) if n.name == "color"));
}

#[test]
fn unknown_opcodes_are_kept_raw() {
    let mut m = header();
    m.extend(op(54, &[1, 2, 0, 3]));
    let parsed = parse_spirv_u32s(&m).unwrap();
    assert!(matches!(&parsed.instructions[0], Instruction::Unknown(u) if u.0 == 54 && u.1 == vec![1, 2, 0, 3]));
}

#[test]
fn entry_point_interface_follows_name() {
    let mut m = header();
    // main\0 takes two words, then the interface ids
    m.extend(op(15, &[4, 9, 0x6e69616d, 0, 20, 21]));
    let parsed = parse_spirv_u32s(&m).unwrap();
    assert!(matches!(&parsed.instructions[0], Instruction::EntryPoint(e)
        if e.execution == 4 && e.id == 9 && e.name == "main" && e.interface == vec![20, 21]));
}

#[test]
fn image_type_operands() {
    let mut m = header();
    m.extend(op(25, &[3, 1, 1, 2, 0, 0, 1, 0, 2]));
    let parsed = parse_spirv_u32s(&m).unwrap();
    assert!(matches!(&parsed.instructions[0], Instruction::TypeImage(t)
        if t.dim == 1 && t.depth.is_none() && t.sampled == Some(true) && t.format == 0 && t.access == Some(2)));
}

#[test]
fn header_errors() {
    assert!(matches!(parse_spirv_u32s(&[0x07230203, 0, 0, 0]), Err(ParseError::MissingHeader)));
    assert!(matches!(parse_spirv_u32s(&[0x03022307, 0, 0, 0, 0]), Err(ParseError::WrongHeader)));
    assert!(matches!(parse_spirv(&[0u8; 19]), Err(ParseError::MissingHeader)));
    assert!(matches!(parse_spirv(&[0u8; 20]), Err(ParseError::MissingHeader)));
}

#[test]
fn incomplete_instruction() {
    let mut m = header();
    m.extend(vec![(5 << 16) | 22, 1, 32]);
    assert!(matches!(parse_spirv_u32s(&m), Err(ParseError::IncompleteInstruction)));
}

#[test]
fn unknown_constants() {
    let mut m = header();
    m.extend(op(14, &[0, 9]));
    assert!(matches!(parse_spirv_u32s(&m), Err(ParseError::UnknownConstant("unknown", 9))));
    let mut m = header();
    m.extend(op(17, &[16]));
    assert!(matches!(parse_spirv_u32s(&m), Err(ParseError::UnknownConstant(_, 16))));
    let mut m = header();
    m.extend(op(71, &[5, 12, 0]));
    assert!(matches!(parse_spirv_u32s(&m), Err(ParseError::UnknownConstant(_, 12))));
    let mut m = header();
    m.extend(op(59, &[3, 5, 13]));
    assert!(matches!(parse_spirv_u32s(&m), Err(ParseError::UnknownConstant(_, 13))));
    let mut m = header();
    m.extend(op(25, &[3, 1, 7, 0, 0, 0, 0, 0]));
    assert!(matches!(parse_spirv_u32s(&m), Err(ParseError::UnknownConstant(_, 7))));
}

#[test]
fn malformed_input_is_reported_by_checked_parsers() {
    let mut zero_count = header();
    zero_count.push(22);
    assert!(parse_spirv_u32s_checked(&zero_count).is_none());
    let mut short = header();
    short.extend(op(23, &[2, 1]));
    assert!(parse_spirv_u32s_checked(&short).is_none());
    let mut unterminated = header();
    unterminated.extend(op(5, &[5, 0x6f6c6f63]));
    assert!(parse_spirv_u32s_checked(&unterminated).is_none());
    let mut not_utf8 = header();
    not_utf8.extend(op(5, &[5, 0x000000ff]));
    assert!(parse_spirv_u32s_checked(&not_utf8).is_none());
    let mut bad_depth = header();
    bad_depth.extend(op(25, &[3, 1, 1, 3, 0, 0, 1, 0]));
    assert!(parse_spirv_u32s_checked(&bad_depth).is_none());
    let mut bytes = le_bytes(&color_module());
    bytes.push(0);
    assert!(parse_spirv_checked(&bytes).is_none());
    assert!(parse_spirv_u32s_checked(&color_module()).unwrap().is_ok());
}

fn color_uniform(index: Option<u32>, name: Option<&str>, ty: TypeDesc) -> ShaderInterfaceDesc {
    interface_with(UniformConstantDesc { name: name.map(|n| n.to_string()), index, ty })
}

#[test]
fn uniform_matched_by_name() {
    let m = color_module();
    let i = color_uniform(None, Some("color"), TypeDesc::Vector(PrimitiveType::Float, 4));
    assert_eq!(verify_spirv_interface(&i, &m, &m, None, None, None), Ok(()));
}

#[test]
fn uniform_matched_by_location() {
    let m = color_module();
    let i = color_uniform(Some(3), None, TypeDesc::Vector(PrimitiveType::Float, 4));
    assert_eq!(verify_spirv_interface(&i, &m, &m, Some(&m), None, None), Ok(()));
}

#[test]
fn uniform_type_mismatch() {
    let m = color_module();
    let i = color_uniform(Some(3), None, TypeDesc::Vector(PrimitiveType::Float, 3));
    assert_eq!(
        verify_spirv_interface(&i, &m, &m, None, None, None),
        Err(InterfaceError::Mismatch { loc: 3, err: TypeCheckError::TypeMismatch, bad_rematch: false })
    );
    let i = color_uniform(Some(3), None, TypeDesc::Primitive(PrimitiveType::Float));
    assert_eq!(
        verify_spirv_interface(&i, &m, &m, None, None, None),
        Err(InterfaceError::Mismatch { loc: 3, err: TypeCheckError::TypeMismatch, bad_rematch: false })
    );
}

#[test]
fn uniform_not_found() {
    let m = color_module();
    let i = color_uniform(Some(4), None, TypeDesc::Vector(PrimitiveType::Float, 4));
    assert_eq!(verify_spirv_interface(&i, &m, &m, None, None, None), Err(InterfaceError::BindingNotFound));
    let i = color_uniform(None, Some("colour"), TypeDesc::Vector(PrimitiveType::Float, 4));
    assert_eq!(verify_spirv_interface(&i, &m, &m, None, None, None), Err(InterfaceError::BindingNotFound));
    let i = color_uniform(None, None, TypeDesc::Vector(PrimitiveType::Float, 4));
    assert_eq!(verify_spirv_interface(&i, &m, &m, None, None, None), Err(InterfaceError::BindingNotFound));
}

#[test]
fn uniform_block_layout() {
    let m = block_module(false);
    let good = TypeDesc::Struct(vec![
        (0, TypeDesc::Vector(PrimitiveType::Float, 4)),
        (16, TypeDesc::Primitive(PrimitiveType::Float)),
    ]);
    assert_eq!(verify_spirv_interface(&color_uniform(Some(1), None, good), &m, &m, None, None, None), Ok(()));
    let bad_offset = TypeDesc::Struct(vec![
        (0, TypeDesc::Vector(PrimitiveType::Float, 4)),
        (20, TypeDesc::Primitive(PrimitiveType::Float)),
    ]);
    assert_eq!(
        verify_spirv_interface(&color_uniform(Some(1), None, bad_offset), &m, &m, None, None, None),
        Err(InterfaceError::Mismatch { loc: 1, err: TypeCheckError::MemberOffsetMismatch, bad_rematch: false })
    );
    let missing_member = TypeDesc::Struct(vec![(0, TypeDesc::Vector(PrimitiveType::Float, 4))]);
    assert_eq!(
        verify_spirv_interface(&color_uniform(Some(1), None, missing_member), &m, &m, None, None, None),
        Err(InterfaceError::Mismatch { loc: 1, err: TypeCheckError::MemberOffsetMismatch, bad_rematch: false })
    );
}

#[test]
fn vec3_member_is_followed_by_scalar_in_its_padding() {
    let m = block_module(true);
    let host = TypeDesc::Struct(vec![
        (0, TypeDesc::Vector(PrimitiveType::Float, 3)),
        (12, TypeDesc::Primitive(PrimitiveType::Float)),
    ]);
    assert_eq!(verify_spirv_interface(&color_uniform(Some(1), None, host), &m, &m, None, None, None), Ok(()));
}

#[test]
fn unparsable_module_stops_checking() {
    let m = color_module();
    let i = color_uniform(Some(3), None, TypeDesc::Vector(PrimitiveType::Float, 4));
    assert_eq!(verify_spirv_interface_checked(&i, &m, &[1, 2, 3], None, None, None), None);
    assert_eq!(verify_spirv_interface_checked(&i, &m, &m, None, None, None), Some(Ok(())));
}

/// A module declaring `uniform float color` at location 3.
fn float_color_module() -> Vec<u32> {
    let mut m = header();
    m.extend(op(17, &[1]));
    m.extend(op(14, &[0, 1]));
    m.extend(op(5, &[5, 0x6f6c6f63, 0x72]));
    m.extend(op(71, &[5, 30, 3]));
    m.extend(op(22, &[1, 32]));
    m.extend(op(32, &[3, 2, 1]));
    m.extend(op(59, &[3, 5, 2]));
    m
}

#[test]
fn search_stops_at_first_module_holding_the_uniform() {
    let vs = color_module();
    let fs = float_color_module();
    let i = color_uniform(Some(3), None, TypeDesc::Vector(PrimitiveType::Float, 4));
    // the vertex module matches; the differing definition in the fragment
    // module is not looked at
    assert_eq!(verify_spirv_interface(&i, &vs, &fs, None, None, None), Ok(()));
    // the other way round, the first module holding it mismatches
    assert_eq!(
        verify_spirv_interface(&i, &fs, &vs, None, None, None),
        Err(InterfaceError::Mismatch { loc: 3, err: TypeCheckError::TypeMismatch, bad_rematch: false })
    );
}
