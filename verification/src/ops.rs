//! The host-operation catalogue: the closed set of native capabilities a
//! script can call, each with a registered name and a dispatch mode, plus
//! the one operation whose whole work is native computation, `op_md5_hash`.

use vstd::prelude::*;
use crate::trusted::md5_digest_of;
use crate::trusted::md5_compute;

verus! {

/// One host operation of the catalogue.
#[derive(Clone, Copy, PartialEq, Eq, Structural, Debug)]
pub enum HostOp {
    ReadFile,
    WriteFile,
    RemoveFile,
    Fetch,
    SetTimeout,
    Md5Hash,
}

/// How one operation is dispatched: a synchronous operation completes before
/// control returns to script; an asynchronous one suspends only the calling
/// script task and delivers its outcome later.
#[derive(Clone, Copy, PartialEq, Eq, Structural, Debug)]
pub enum DispatchMode {
    Sync,
    Async,
}

/// The name under which one operation is registered with the engine.
pub open spec fn op_name_spec(op: HostOp) -> Seq<char> {
    match op {
        HostOp::ReadFile => "op_read_file"@,
        HostOp::WriteFile => "op_write_file"@,
        HostOp::RemoveFile => "op_remove_file"@,
        HostOp::Fetch => "op_fetch"@,
        HostOp::SetTimeout => "op_set_timeout"@,
        HostOp::Md5Hash => "op_md5_hash"@,
    }
}

pub fn op_name(op: &HostOp) -> (r: &'static str)
    ensures
        r@ == op_name_spec(*op),
{
    match op {
        HostOp::ReadFile => "op_read_file",
        HostOp::WriteFile => "op_write_file",
        HostOp::RemoveFile => "op_remove_file",
        HostOp::Fetch => "op_fetch",
        HostOp::SetTimeout => "op_set_timeout",
        HostOp::Md5Hash => "op_md5_hash",
    }
}

/// The dispatch mode of one operation: file removal and hashing complete
/// synchronously, everything else suspends the calling task.
pub open spec fn dispatch_mode_spec(op: HostOp) -> DispatchMode {
    match op {
        HostOp::RemoveFile => DispatchMode::Sync,
        HostOp::Md5Hash => DispatchMode::Sync,
        _ => DispatchMode::Async,
    }
}

pub fn dispatch_mode(op: &HostOp) -> (r: DispatchMode)
    ensures
        r == dispatch_mode_spec(*op),
{
    match op {
        HostOp::RemoveFile => DispatchMode::Sync,
        HostOp::Md5Hash => DispatchMode::Sync,
        _ => DispatchMode::Async,
    }
}

/// The shape of one marshalled argument.
#[derive(Clone, Copy, PartialEq, Eq, Structural, Debug)]
pub enum ArgShape {
    /// A text value.
    Text,
    /// A numeric value.
    Number,
    /// The optional fetch options record.
    OptionalInit,
}

/// The shape of one marshalled result.
#[derive(Clone, Copy, PartialEq, Eq, Structural, Debug)]
pub enum ResultShape {
    /// No value.
    Unit,
    /// A text value.
    Text,
    /// The fetch response record.
    Response,
}

/// The ordered argument shapes of one operation.
pub open spec fn arg_shapes_spec(op: HostOp) -> Seq<ArgShape> {
    match op {
        HostOp::ReadFile => seq![ArgShape::Text],
        HostOp::WriteFile => seq![ArgShape::Text, ArgShape::Text],
        HostOp::RemoveFile => seq![ArgShape::Text],
        HostOp::Fetch => seq![ArgShape::Text, ArgShape::OptionalInit],
        HostOp::SetTimeout => seq![ArgShape::Number],
        HostOp::Md5Hash => seq![ArgShape::Text],
    }
}

pub fn arg_shapes(op: &HostOp) -> (r: Vec<ArgShape>)
    ensures
        r@ == arg_shapes_spec(*op),
{
    let mut v: Vec<ArgShape> = Vec::new();
    match op {
        HostOp::ReadFile => v.push(ArgShape::Text),
        HostOp::WriteFile => {
            v.push(ArgShape::Text);
            v.push(ArgShape::Text);
        },
        HostOp::RemoveFile => v.push(ArgShape::Text),
        HostOp::Fetch => {
            v.push(ArgShape::Text);
            v.push(ArgShape::OptionalInit);
        },
        HostOp::SetTimeout => v.push(ArgShape::Number),
        HostOp::Md5Hash => v.push(ArgShape::Text),
    }
    proof {
        assert(v@ =~= arg_shapes_spec(*op));
    }
    v
}

/// The result shape of one operation.
pub open spec fn result_shape_spec(op: HostOp) -> ResultShape {
    match op {
        HostOp::ReadFile => ResultShape::Text,
        HostOp::WriteFile => ResultShape::Unit,
        HostOp::RemoveFile => ResultShape::Unit,
        HostOp::Fetch => ResultShape::Response,
        HostOp::SetTimeout => ResultShape::Unit,
        HostOp::Md5Hash => ResultShape::Text,
    }
}

pub fn result_shape(op: &HostOp) -> (r: ResultShape)
    ensures
        r == result_shape_spec(*op),
{
    match op {
        HostOp::ReadFile => ResultShape::Text,
        HostOp::WriteFile => ResultShape::Unit,
        HostOp::RemoveFile => ResultShape::Unit,
        HostOp::Fetch => ResultShape::Response,
        HostOp::SetTimeout => ResultShape::Unit,
        HostOp::Md5Hash => ResultShape::Text,
    }
}

/// The process-wide catalogue: each operation exactly once.
pub fn catalogue() -> (r: Vec<HostOp>)
    ensures
        r@ == seq![
            HostOp::ReadFile,
            HostOp::WriteFile,
            HostOp::RemoveFile,
            HostOp::Fetch,
            HostOp::SetTimeout,
            HostOp::Md5Hash,
        ],
{
    let mut v: Vec<HostOp> = Vec::new();
    v.push(HostOp::ReadFile);
    v.push(HostOp::WriteFile);
    v.push(HostOp::RemoveFile);
    v.push(HostOp::Fetch);
    v.push(HostOp::SetTimeout);
    v.push(HostOp::Md5Hash);
    proof {
        assert(v@ =~= seq![
            HostOp::ReadFile,
            HostOp::WriteFile,
            HostOp::RemoveFile,
            HostOp::Fetch,
            HostOp::SetTimeout,
            HostOp::Md5Hash,
        ]);
    }
    v
}

/// Catalogue law: distinct operations register under distinct names.
pub proof fn lemma_op_names_unique(a: HostOp, b: HostOp)
    requires
        op_name_spec(a) == op_name_spec(b),
    ensures
        a == b,
{
    reveal_strlit("op_read_file");
    reveal_strlit("op_write_file");
    reveal_strlit("op_remove_file");
    reveal_strlit("op_fetch");
    reveal_strlit("op_set_timeout");
    reveal_strlit("op_md5_hash");
    assert("op_read_file"@.len() == 12);
    assert("op_write_file"@.len() == 13);
    assert("op_remove_file"@.len() == 14);
    assert("op_fetch"@.len() == 8);
    assert("op_set_timeout"@.len() == 14);
    assert("op_md5_hash"@.len() == 11);
    assert("op_remove_file"@[3] != "op_set_timeout"@[3]);
}

/// One hexadecimal digit, lower case.
pub open spec fn hex_digit_char(n: u8) -> char {
    match n {
        0 => '0',
        1 => '1',
        2 => '2',
        3 => '3',
        4 => '4',
        5 => '5',
        6 => '6',
        7 => '7',
        8 => '8',
        9 => '9',
        10 => 'a',
        11 => 'b',
        12 => 'c',
        13 => 'd',
        14 => 'e',
        _ => 'f',
    }
}

/// The lowercase hexadecimal rendering of a byte string: two digits per
/// byte, high nibble first.
pub open spec fn hex_of(bytes: Seq<u8>) -> Seq<char>
    decreases bytes.len(),
{
    if bytes.len() == 0 {
        Seq::empty()
    } else {
        hex_of(bytes.drop_last()) + seq![
            hex_digit_char(bytes.last() / 16),
            hex_digit_char(bytes.last() % 16),
        ]
    }
}

pub proof fn lemma_hex_of_len(bytes: Seq<u8>)
    ensures
        hex_of(bytes).len() == 2 * bytes.len(),
    decreases bytes.len(),
{
    if bytes.len() > 0 {
        lemma_hex_of_len(bytes.drop_last());
    }
}

fn hex_digit_str(n: u8) -> (r: &'static str)
    requires
        n < 16,
    ensures
        r@ =~= seq![hex_digit_char(n)],
{
    proof {
        reveal_strlit("0");
        reveal_strlit("1");
        reveal_strlit("2");
        reveal_strlit("3");
        reveal_strlit("4");
        reveal_strlit("5");
        reveal_strlit("6");
        reveal_strlit("7");
        reveal_strlit("8");
        reveal_strlit("9");
        reveal_strlit("a");
        reveal_strlit("b");
        reveal_strlit("c");
        reveal_strlit("d");
        reveal_strlit("e");
        reveal_strlit("f");
    }
    match n {
        0 => "0",
        1 => "1",
        2 => "2",
        3 => "3",
        4 => "4",
        5 => "5",
        6 => "6",
        7 => "7",
        8 => "8",
        9 => "9",
        10 => "a",
        11 => "b",
        12 => "c",
        13 => "d",
        14 => "e",
        _ => "f",
    }
}

/// Renders a byte string as lowercase hexadecimal.
pub fn to_hex(bytes: &Vec<u8>) -> (r: String)
    ensures
        r@ == hex_of(bytes@),
{
    let mut out = String::new();
    let mut i: usize = 0;
    while i < bytes.len()
        invariant
            i <= bytes@.len(),
            out@ == hex_of(bytes@.take(i as int)),
        decreases bytes@.len() - i,
    {
        let b = bytes[i];
        out.append(hex_digit_str(b / 16));
        out.append(hex_digit_str(b % 16));
        proof {
            let pre = bytes@.take(i as int);
            let post = bytes@.take(i + 1 as int);
            assert(post.drop_last() =~= pre);
            assert(post.last() == bytes@[i as int]);
        }
        i += 1;
    }
    proof {
        assert(bytes@.take(bytes@.len() as int) =~= bytes@);
    }
    out
}

/// The digest `op_md5_hash` returns for one text.
pub open spec fn md5_hex_spec(data: Seq<char>) -> Seq<char> {
    hex_of(md5_digest_of(data))
}

/// Computes the MD5 digest of the UTF-8 bytes of `data` and renders it as
/// lowercase hexadecimal. Deterministic; never fails.
pub fn op_md5_hash(data: &str) -> (r: String)
    ensures
        r@ == md5_hex_spec(data@),
        r@.len() == 32,
{
    let digest = md5_compute(data);
    proof {
        lemma_hex_of_len(digest@);
    }
    to_hex(&digest)
}

/// Determinism law for the hashing operation: the digest is a function of
/// the text alone, so equal texts hash alike.
pub proof fn lemma_md5_hash_deterministic(a: Seq<char>, b: Seq<char>)
    requires
        a == b,
    ensures
        md5_hex_spec(a) == md5_hex_spec(b),
{
}

} // verus!
