use jg_launcher::class_util::{url_extended_processing, UrlHook};

fn utf8(out: &mut Vec<u8>, s: &str) {
    out.push(1);
    out.extend_from_slice(&(s.len() as u16).to_be_bytes());
    out.extend_from_slice(s.as_bytes());
}

fn hook() -> UrlHook {
    UrlHook {
        class: "jg/Hook".to_string(),
        method: "hook".to_string(),
        descriptor: "(Ljava/net/URLConnection;)Ljava/net/URLConnection;".to_string(),
    }
}

/// The `Code` attribute data of a method with the given bytecode and a
/// local variable table whose only entry (the receiver) spans `scope` bytes.
fn code_data(codes: &[u8], scope: u16) -> Vec<u8> {
    let mut d = Vec::new();
    d.extend_from_slice(&1u16.to_be_bytes());
    d.extend_from_slice(&1u16.to_be_bytes());
    d.extend_from_slice(&(codes.len() as i32).to_be_bytes());
    d.extend_from_slice(codes);
    d.extend_from_slice(&0u16.to_be_bytes());
    d.extend_from_slice(&1u16.to_be_bytes());
    d.extend_from_slice(&4u16.to_be_bytes());
    d.extend_from_slice(&12i32.to_be_bytes());
    for v in [1u16, 0, scope, 5, 6, 0] {
        d.extend_from_slice(&v.to_be_bytes());
    }
    d
}

/// A class file with the given extra constants after the first eight and one
/// method named by constant `method_name` whose code is `code`.
fn class_file(extra: &[u8], extra_count: u16, method_name: u16, code: &[u8]) -> Vec<u8> {
    let mut c = vec![0xCA, 0xFE, 0xBA, 0xBE, 0, 0, 0, 52];
    c.extend_from_slice(&(9 + extra_count).to_be_bytes());
    utf8(&mut c, "openConnection");
    utf8(&mut c, "()Ljava/net/URLConnection;");
    utf8(&mut c, "Code");
    utf8(&mut c, "LocalVariableTable");
    utf8(&mut c, "this");
    utf8(&mut c, "Ljava/net/URL;");
    utf8(&mut c, "java/net/URL");
    c.extend_from_slice(&[7, 0, 7]);
    c.extend_from_slice(extra);
    for v in [0x21u16, 8, 0, 0, 0, 1, 1, method_name, 2, 1, 3] {
        c.extend_from_slice(&v.to_be_bytes());
    }
    c.extend_from_slice(&(code.len() as i32).to_be_bytes());
    c.extend_from_slice(code);
    c.extend_from_slice(&0u16.to_be_bytes());
    c
}

fn hook_constants() -> Vec<u8> {
    let mut p = Vec::new();
    utf8(&mut p, "jg/Hook");
    utf8(&mut p, "hook");
    utf8(&mut p, "(Ljava/net/URLConnection;)Ljava/net/URLConnection;");
    p.extend_from_slice(&[7, 0, 9]);
    p.extend_from_slice(&[12, 0, 10, 0, 11]);
    p.extend_from_slice(&[10, 0, 12, 0, 13]);
    p
}

#[test]
fn open_connection_result_goes_through_the_hook() {
    let input = class_file(&[], 0, 1, &code_data(&[0x2a, 0xb0], 2));
    let expected = class_file(&hook_constants(), 6, 1, &code_data(&[0x2a, 184, 0, 14, 0xb0], 5));
    assert_eq!(url_extended_processing(&input, &hook()), Some(expected));
}

#[test]
fn other_methods_keep_their_code_but_the_pool_grows() {
    let input = class_file(&[], 0, 5, &code_data(&[0x2a, 0xb0], 2));
    let expected = class_file(&hook_constants(), 6, 5, &code_data(&[0x2a, 0xb0], 2));
    assert_eq!(url_extended_processing(&input, &hook()), Some(expected));
}

#[test]
fn existing_hook_constants_are_reused() {
    let once = class_file(&[], 0, 1, &code_data(&[0x2a, 0xb0], 2));
    let rewritten = url_extended_processing(&once, &hook()).unwrap();
    let twice = url_extended_processing(&rewritten, &hook()).unwrap();
    let expected = class_file(&hook_constants(), 6, 1, &code_data(&[0x2a, 184, 0, 14, 184, 0, 14, 0xb0], 8));
    assert_eq!(twice, expected);
}

#[test]
fn method_without_code_bytes_leaves_the_class_alone() {
    let input = class_file(&[], 0, 1, &code_data(&[], 0));
    assert_eq!(url_extended_processing(&input, &hook()), None);
}

#[test]
fn bytes_that_are_no_class_are_refused() {
    assert_eq!(url_extended_processing(b"not a class", &hook()), None);
    assert_eq!(url_extended_processing(&[], &hook()), None);
}

#[test]
fn huge_declared_lengths_are_declined_without_a_panic() {
    let mut bad_code = code_data(&[0x2a, 0xb0], 2);
    bad_code[4..8].copy_from_slice(&[0xFF, 0xFF, 0xFF, 0xFF]);
    let input = class_file(&[], 0, 1, &bad_code);
    assert_eq!(url_extended_processing(&input, &hook()), None);

    let mut bad_class = class_file(&[], 0, 1, &code_data(&[0x2a, 0xb0], 2));
    let code_len_at = bad_class.len() - 2 - 32 - 4;
    bad_class[code_len_at..code_len_at + 4].copy_from_slice(&[0x80, 0, 0, 0]);
    assert_eq!(url_extended_processing(&bad_class, &hook()), None);
}

/// `n` integer constants, followed by a `long` when `long_last`.
fn filler(n: u32, long_last: bool) -> Vec<u8> {
    let mut p = Vec::new();
    for k in 0..n {
        p.push(3);
        p.extend_from_slice(&k.to_be_bytes());
    }
    if long_last {
        p.extend_from_slice(&[5, 0, 0, 0, 0, 0, 0, 0, 1]);
    }
    p
}

#[test]
fn long_constant_at_the_last_index_is_declined() {
    let input = class_file(&filler(65525, true), 65526, 1, &code_data(&[0x2a, 0xb0], 2));
    assert_eq!(url_extended_processing(&input, &hook()), None);
}

#[test]
fn nearly_full_pool_reuses_constants_it_holds() {
    let mut extra = hook_constants();
    extra.extend_from_slice(&filler(65520, false));
    let input = class_file(&extra, 65526, 1, &code_data(&[0x2a, 0xb0], 2));
    let expected = class_file(&extra, 65526, 1, &code_data(&[0x2a, 184, 0, 14, 0xb0], 5));
    assert_eq!(url_extended_processing(&input, &hook()), Some(expected));
}

#[test]
fn pool_without_room_for_the_hook_constants_is_left_alone() {
    let input = class_file(&filler(65526, false), 65526, 1, &code_data(&[0x2a, 0xb0], 2));
    assert_eq!(url_extended_processing(&input, &hook()), None);
}
