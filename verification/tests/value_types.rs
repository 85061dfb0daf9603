use wasm_decoder::buffer::Buffer;
use wasm_decoder::error::DecodeError;
use wasm_decoder::export_section::{ExportDescNode, ExportNode, ExportSectionNode};
use wasm_decoder::func_section::FunctionSectionNode;
use wasm_decoder::type_section::{
    FunctionTypeNode, NumType, RefType, ResultTypeNode, TypeSectionNode, ValType,
};

#[test]
fn num_type_tags() {
    assert_eq!(NumType::from_u8(0x7f), Some(NumType::I32(0x7f)));
    assert_eq!(NumType::from_u8(0x7e), Some(NumType::I64(0x7e)));
    assert_eq!(NumType::from_u8(0x7d), Some(NumType::F32(0x7d)));
    assert_eq!(NumType::from_u8(0x7c), Some(NumType::F64(0x7c)));
    assert_eq!(NumType::from_u8(0x7b), None);
    assert_eq!(NumType::from_u8(0x70), None);
}

#[test]
fn ref_type_tags() {
    assert_eq!(RefType::from_u8(0x70), Some(RefType::FuncRef(0x70)));
    assert_eq!(RefType::from_u8(0x6f), Some(RefType::ExternRef(0x6f)));
    assert_eq!(RefType::from_u8(0x7f), None);
    assert_eq!(RefType::from_u8(0x00), None);
}

#[test]
fn val_type_tags() {
    for tag in 0..=255u8 {
        let expected = match tag {
            0x7f => Some(ValType::NumType(NumType::I32(tag))),
            0x7e => Some(ValType::NumType(NumType::I64(tag))),
            0x7d => Some(ValType::NumType(NumType::F32(tag))),
            0x7c => Some(ValType::NumType(NumType::F64(tag))),
            0x70 => Some(ValType::RefType(RefType::FuncRef(tag))),
            0x6f => Some(ValType::RefType(RefType::ExternRef(tag))),
            _ => None,
        };
        assert_eq!(ValType::from_u8(tag), expected);
    }
}

#[test]
fn val_types_are_equal_by_variant_and_tag() {
    assert_eq!(ValType::NumType(NumType::I32(0x7f)), ValType::NumType(NumType::I32(0x7f)));
    assert_ne!(ValType::NumType(NumType::I32(0x7f)), ValType::NumType(NumType::I64(0x7f)));
    assert_ne!(ValType::NumType(NumType::I32(0x7f)), ValType::NumType(NumType::I32(0)));
    assert_ne!(ValType::NumType(NumType::I32(0x70)), ValType::RefType(RefType::FuncRef(0x70)));
}

#[test]
fn result_type_decodes_value_types() {
    let mut buffer = Buffer::new(vec![3, 0x7f, 0x7c, 0x6f, 0x60]);
    let mut node = ResultTypeNode::new();
    assert_eq!(node.load(&mut buffer), Ok(()));
    assert_eq!(
        node.val_types,
        vec![
            ValType::NumType(NumType::I32(0x7f)),
            ValType::NumType(NumType::F64(0x7c)),
            ValType::RefType(RefType::ExternRef(0x6f)),
        ]
    );
    assert_eq!(buffer.read_byte(), Ok(0x60));
}

#[test]
fn result_type_rejects_an_unknown_tag() {
    let mut buffer = Buffer::new(vec![2, 0x7f, 0x11]);
    let mut node = ResultTypeNode::new();
    assert_eq!(node.load(&mut buffer), Err(DecodeError::InvalidValType(0x11)));
    assert_eq!(node, ResultTypeNode::new());
    assert_eq!(buffer.read_byte(), Ok(2));
}

#[test]
fn function_type_tag_is_0x60() {
    assert_eq!(FunctionTypeNode::new().tag(), 0x60);
}

#[test]
fn function_type_decodes_params_and_results() {
    let mut buffer = Buffer::new(vec![0x60, 2, 0x7f, 0x7e, 1, 0x7d]);
    let mut node = FunctionTypeNode::new();
    assert_eq!(node.load(&mut buffer), Ok(()));
    assert_eq!(
        node.param_type.val_types,
        vec![ValType::NumType(NumType::I32(0x7f)), ValType::NumType(NumType::I64(0x7e))]
    );
    assert_eq!(node.result_type.val_types, vec![ValType::NumType(NumType::F32(0x7d))]);
    assert!(buffer.eof());
}

#[test]
fn function_type_rejects_another_tag() {
    let mut buffer = Buffer::new(vec![0x61, 0, 0]);
    let mut node = FunctionTypeNode::new();
    assert_eq!(node.load(&mut buffer), Err(DecodeError::InvalidFunctionTypeTag(0x61)));
    assert_eq!(buffer.read_byte(), Ok(0x61));
}

#[test]
fn function_type_failure_changes_nothing() {
    let mut node = FunctionTypeNode::new();
    let mut buffer = Buffer::new(vec![0x60, 1, 0x7f, 0]);
    assert_eq!(node.load(&mut buffer), Ok(()));
    let held = node.clone();
    // the results are cut short
    let mut buffer = Buffer::new(vec![0x60, 0, 2, 0x7f]);
    assert_eq!(node.load(&mut buffer), Err(DecodeError::BufferUnderrun));
    assert_eq!(node, held);
    assert_eq!(buffer.read_byte(), Ok(0x60));
    // an unknown value type among the parameters
    let mut buffer = Buffer::new(vec![0x60, 1, 0x00, 0]);
    assert_eq!(node.load(&mut buffer), Err(DecodeError::InvalidValType(0x00)));
    assert_eq!(node, held);
}

#[test]
fn type_section_decodes_function_types_in_order() {
    let mut buffer = Buffer::new(vec![2, 0x60, 0, 0, 0x60, 1, 0x7f, 1, 0x7f]);
    let mut section = TypeSectionNode::new();
    assert_eq!(section.load(&mut buffer), Ok(()));
    assert_eq!(section.func_types.len(), 2);
    assert_eq!(section.func_types[0], FunctionTypeNode::new());
    assert_eq!(section.func_types[1].param_type.val_types, vec![ValType::NumType(NumType::I32(0x7f))]);
    assert_eq!(section.func_types[1].result_type.val_types, vec![ValType::NumType(NumType::I32(0x7f))]);
    assert!(buffer.eof());
}

#[test]
fn type_section_replaces_what_the_node_held() {
    let mut section = TypeSectionNode::new();
    assert_eq!(section.load(&mut Buffer::new(vec![2, 0x60, 0, 0, 0x60, 0, 0])), Ok(()));
    assert_eq!(section.func_types.len(), 2);
    assert_eq!(section.load(&mut Buffer::new(vec![1, 0x60, 0, 0])), Ok(()));
    assert_eq!(section.func_types.len(), 1);
}

#[test]
fn type_section_fails_with_the_first_bad_type() {
    let mut buffer = Buffer::new(vec![2, 0x60, 0, 0, 0x50, 0, 0]);
    let mut section = TypeSectionNode::new();
    assert_eq!(section.load(&mut buffer), Err(DecodeError::InvalidFunctionTypeTag(0x50)));
    assert_eq!(section, TypeSectionNode::new());
    assert_eq!(buffer.read_byte(), Ok(2));
}

#[test]
fn function_section_decodes_type_indices() {
    let mut buffer = Buffer::new(vec![3, 0, 0x80, 0x01, 5]);
    let mut section = FunctionSectionNode::new();
    assert_eq!(section.load(&mut buffer), Ok(()));
    assert_eq!(section.type_indices, vec![0, 128, 5]);
    assert!(buffer.eof());
}

#[test]
fn function_section_underrun() {
    let mut buffer = Buffer::new(vec![2, 0]);
    let mut section = FunctionSectionNode::new();
    assert_eq!(section.load(&mut buffer), Err(DecodeError::BufferUnderrun));
    assert_eq!(section, FunctionSectionNode::new());
    assert_eq!(buffer.read_byte(), Ok(2));
}

#[test]
fn export_desc_decodes_tag_and_index() {
    let mut buffer = Buffer::new(vec![2, 0xe5, 0x8e, 0x26]);
    let mut desc = ExportDescNode::new();
    assert_eq!(desc, ExportDescNode { tag: 0, index: 0 });
    assert_eq!(desc.load(&mut buffer), Ok(()));
    assert_eq!(desc, ExportDescNode { tag: 2, index: 624485 });
}

#[test]
fn export_desc_keeps_an_unknown_kind() {
    let mut buffer = Buffer::new(vec![0x2a, 1]);
    let mut desc = ExportDescNode::new();
    assert_eq!(desc.load(&mut buffer), Ok(()));
    assert_eq!(desc, ExportDescNode { tag: 0x2a, index: 1 });
}

#[test]
fn export_desc_failure_changes_nothing() {
    let mut buffer = Buffer::new(vec![3, 0x80]);
    let mut desc = ExportDescNode { tag: 1, index: 9 };
    assert_eq!(desc.load(&mut buffer), Err(DecodeError::BufferUnderrun));
    assert_eq!(desc, ExportDescNode { tag: 1, index: 9 });
    assert_eq!(buffer.read_byte(), Ok(3));
}

#[test]
fn export_decodes_name_and_descriptor() {
    let mut buffer = Buffer::new(vec![4, b'm', b'a', b'i', b'n', 0, 7]);
    let mut export = ExportNode::new();
    assert_eq!(export.load(&mut buffer), Ok(()));
    assert_eq!(export.name, "main");
    assert_eq!(export.desc, ExportDescNode { tag: 0, index: 7 });
    assert!(buffer.eof());
}

#[test]
fn export_with_a_bad_name() {
    let mut buffer = Buffer::new(vec![1, 0x80, 0, 0]);
    let mut export = ExportNode::new();
    assert_eq!(export.load(&mut buffer), Err(DecodeError::InvalidUtf8));
    assert_eq!(export, ExportNode::new());
    assert_eq!(buffer.read_byte(), Ok(1));
}

#[test]
fn export_section_decodes_exports_in_order() {
    let mut buffer = Buffer::new(vec![2, 1, b'f', 0, 0, 3, b'm', b'e', b'm', 2, 1]);
    let mut section = ExportSectionNode::new();
    assert_eq!(section.load(&mut buffer), Ok(()));
    assert_eq!(section.exports.len(), 2);
    assert_eq!(section.exports[0].name, "f");
    assert_eq!(section.exports[0].desc, ExportDescNode { tag: 0, index: 0 });
    assert_eq!(section.exports[1].name, "mem");
    assert_eq!(section.exports[1].desc, ExportDescNode { tag: 2, index: 1 });
}

#[test]
fn export_section_cut_short() {
    let mut buffer = Buffer::new(vec![2, 1, b'f', 0, 0, 3, b'm']);
    let mut section = ExportSectionNode::new();
    assert_eq!(section.load(&mut buffer), Err(DecodeError::BufferUnderrun));
    assert_eq!(section, ExportSectionNode::new());
}
