use llama::nul_terminated;

#[test]
fn path_gets_one_trailing_zero() {
    assert_eq!(
        nul_terminated("models/ggml-vicuna-13b-4bit.bin"),
        b"models/ggml-vicuna-13b-4bit.bin\0"
    );
    assert_eq!(nul_terminated("a"), [b'a', 0]);
}

#[test]
fn empty_path_is_the_lone_zero() {
    assert_eq!(nul_terminated(""), [0]);
}

#[test]
fn bytes_are_taken_as_they_are() {
    assert_eq!(nul_terminated("mod\0els"), b"mod\0els\0");
    assert_eq!(nul_terminated("mod\u{e8}le"), [b'm', b'o', b'd', 0xc3, 0xa8, b'l', b'e', 0]);
}
