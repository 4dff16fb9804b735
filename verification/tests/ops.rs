use ejsr::ops::catalogue;
use ejsr::ops::dispatch_mode;
use ejsr::ops::op_md5_hash;
use ejsr::ops::op_name;
use ejsr::ops::to_hex;
use ejsr::ops::arg_shapes;
use ejsr::ops::result_shape;
use ejsr::ops::ArgShape;
use ejsr::ops::DispatchMode;
use ejsr::ops::HostOp;
use ejsr::ops::ResultShape;

#[test]
fn md5_empty_vector() {
    assert_eq!(op_md5_hash(""), "d41d8cd98f00b204e9800998ecf8427e");
}

#[test]
fn md5_abc_vector() {
    assert_eq!(op_md5_hash("abc"), "900150983cd24fb0d6963f7d28e17f72");
}

#[test]
fn md5_message_digest_vector() {
    assert_eq!(op_md5_hash("message digest"), "f96b697d7cb7938d525a2f31aaf161d0");
}

#[test]
fn md5_is_deterministic() {
    let text = "the same text, hashed twice";
    assert_eq!(op_md5_hash(text), op_md5_hash(text));
}

#[test]
fn hex_rendering_is_two_lowercase_digits_per_byte() {
    assert_eq!(to_hex(&vec![]), "");
    assert_eq!(to_hex(&vec![0x00, 0x0f, 0xa0, 0xff]), "000fa0ff");
}

#[test]
fn catalogue_lists_each_operation_once() {
    let ops = catalogue();
    assert_eq!(
        ops,
        vec![
            HostOp::ReadFile,
            HostOp::WriteFile,
            HostOp::RemoveFile,
            HostOp::Fetch,
            HostOp::SetTimeout,
            HostOp::Md5Hash,
        ]
    );
}

#[test]
fn registered_names_are_the_engine_facing_ones() {
    assert_eq!(op_name(&HostOp::ReadFile), "op_read_file");
    assert_eq!(op_name(&HostOp::WriteFile), "op_write_file");
    assert_eq!(op_name(&HostOp::RemoveFile), "op_remove_file");
    assert_eq!(op_name(&HostOp::Fetch), "op_fetch");
    assert_eq!(op_name(&HostOp::SetTimeout), "op_set_timeout");
    assert_eq!(op_name(&HostOp::Md5Hash), "op_md5_hash");
}

#[test]
fn registered_names_are_pairwise_distinct() {
    let ops = catalogue();
    for a in &ops {
        for b in &ops {
            if a != b {
                assert_ne!(op_name(a), op_name(b));
            }
        }
    }
}

#[test]
fn only_removal_and_hashing_are_synchronous() {
    assert_eq!(dispatch_mode(&HostOp::ReadFile), DispatchMode::Async);
    assert_eq!(dispatch_mode(&HostOp::WriteFile), DispatchMode::Async);
    assert_eq!(dispatch_mode(&HostOp::RemoveFile), DispatchMode::Sync);
    assert_eq!(dispatch_mode(&HostOp::Fetch), DispatchMode::Async);
    assert_eq!(dispatch_mode(&HostOp::SetTimeout), DispatchMode::Async);
    assert_eq!(dispatch_mode(&HostOp::Md5Hash), DispatchMode::Sync);
}

#[test]
fn argument_and_result_shapes_follow_the_table() {
    assert_eq!(arg_shapes(&HostOp::ReadFile), vec![ArgShape::Text]);
    assert_eq!(arg_shapes(&HostOp::WriteFile), vec![ArgShape::Text, ArgShape::Text]);
    assert_eq!(arg_shapes(&HostOp::RemoveFile), vec![ArgShape::Text]);
    assert_eq!(arg_shapes(&HostOp::Fetch), vec![ArgShape::Text, ArgShape::OptionalInit]);
    assert_eq!(arg_shapes(&HostOp::SetTimeout), vec![ArgShape::Number]);
    assert_eq!(arg_shapes(&HostOp::Md5Hash), vec![ArgShape::Text]);
    assert_eq!(result_shape(&HostOp::ReadFile), ResultShape::Text);
    assert_eq!(result_shape(&HostOp::WriteFile), ResultShape::Unit);
    assert_eq!(result_shape(&HostOp::RemoveFile), ResultShape::Unit);
    assert_eq!(result_shape(&HostOp::Fetch), ResultShape::Response);
    assert_eq!(result_shape(&HostOp::SetTimeout), ResultShape::Unit);
    assert_eq!(result_shape(&HostOp::Md5Hash), ResultShape::Text);
}
