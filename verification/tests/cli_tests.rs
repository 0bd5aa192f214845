use lzpack::cli::{parse_operation, plan_invocation, usage_message, CliError, Operation};

#[test]
fn parse_compress() {
    assert_eq!(parse_operation(&String::from("compress")), Some(Operation::Compress));
}

#[test]
fn parse_decompress() {
    assert_eq!(parse_operation(&String::from("decompress")), Some(Operation::Decompress));
}

#[test]
fn parse_unknown_is_none() {
    assert_eq!(parse_operation(&String::from("deflate")), None);
    assert_eq!(parse_operation(&String::from("COMPRESS")), None);
    assert_eq!(parse_operation(&String::from("compress ")), None);
    assert_eq!(parse_operation(&String::from("")), None);
}

#[test]
fn too_few_arguments_fail() {
    let args = vec![String::from("lzpack")];
    assert_eq!(plan_invocation(&args).err(), Some(CliError::WrongArgCount));
    let args = vec![String::from("lzpack"), String::from("compress"), String::from("in.txt")];
    assert_eq!(plan_invocation(&args).err(), Some(CliError::WrongArgCount));
}

#[test]
fn too_many_arguments_fail() {
    let args = vec![
        String::from("lzpack"),
        String::from("compress"),
        String::from("in.txt"),
        String::from("out.lzma"),
        String::from("extra"),
    ];
    assert_eq!(plan_invocation(&args).err(), Some(CliError::WrongArgCount));
}

#[test]
fn unknown_operation_fails() {
    let args = vec![
        String::from("lzpack"),
        String::from("zip"),
        String::from("in.txt"),
        String::from("out.lzma"),
    ];
    assert_eq!(plan_invocation(&args).err(), Some(CliError::UnknownOperation));
}

#[test]
fn valid_invocation_is_planned() {
    let args = vec![
        String::from("lzpack"),
        String::from("decompress"),
        String::from("archive.lzma"),
        String::from("plain.txt"),
    ];
    let plan = plan_invocation(&args).unwrap();
    assert_eq!(plan.op, Operation::Decompress);
    assert_eq!(plan.input, "archive.lzma");
    assert_eq!(plan.output, "plain.txt");
}

#[test]
fn usage_message_text() {
    let msg = usage_message(&String::from("lzpack"));
    assert_eq!(msg, "Usage: lzpack [compress|decompress] [input_file] [output_file]");
}
