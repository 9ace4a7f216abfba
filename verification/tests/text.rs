use cromwell::commands::{parse_command, shell_args};
use cromwell::text::{concat_str, file_stem, i32_to_decimal, parse_i32, replace_all, split_on, u32_to_decimal};
use cromwell::commands::{exec_each_step, ExecEachStep};

#[test]
fn parse_command_splits_at_spaces() {
    assert_eq!(parse_command("ip a"), vec!["ip", "a"]);
    assert_eq!(parse_command("ls"), vec!["ls"]);
    assert_eq!(parse_command(""), vec![""]);
    assert_eq!(parse_command("a  b "), vec!["a", "", "b", ""]);
}

#[test]
fn split_matches_str_split() {
    for s in ["", ":", "a:b", "::x", "héllo:wörld:", "no separator"] {
        let expected: Vec<&str> = s.split(':').collect();
        assert_eq!(split_on(s, ':'), expected);
        assert_eq!(split_on(s, ':').join(":"), s);
    }
}

#[test]
fn shell_args_pass_the_command_to_sh() {
    assert_eq!(shell_args("ip a"), vec!["-c".to_string(), "ip a".to_string()]);
}

#[test]
fn decimal_matches_to_string() {
    for n in [0u32, 7, 10, 1000, 65534, u32::MAX] {
        assert_eq!(u32_to_decimal(n), n.to_string());
    }
    for n in [0i32, 1, -1, 42, -4242, i32::MAX, i32::MIN] {
        assert_eq!(i32_to_decimal(n), n.to_string());
    }
}

#[test]
fn parse_matches_str_parse() {
    for s in ["0", "42", "+42", "-42", "", "-", "+", "12a", "2147483647", "2147483648",
              "-2147483648", "-2147483649", "007", " 1", "99999999999999999999"] {
        assert_eq!(parse_i32(s), s.parse::<i32>().ok(), "{}", s);
    }
}

#[test]
fn parse_reads_back_decimal() {
    for n in [0i32, 5, -5, 123456, i32::MIN, i32::MAX] {
        assert_eq!(parse_i32(&i32_to_decimal(n)), Some(n));
    }
}

#[test]
fn replace_matches_str_replace() {
    for s in ["sha256:abc", "abc", "", "sha256:", "xsha256:ysha256:", "sha2sha256:56:", "sha25"] {
        assert_eq!(replace_all(s, "sha256:", ""), s.replace("sha256:", ""));
        assert_eq!(replace_all(s, "sha", "SHA"), s.replace("sha", "SHA"));
        assert_eq!(replace_all(s, "", "-"), s.replace("", "-"));
    }
}

#[test]
fn stem_matches_path_file_stem() {
    for name in ["abc.pid", "a.b.pid", "noext", ".bashrc", "..", "x.", ".a.b", ""] {
        let expected = std::path::Path::new(name)
            .file_stem()
            .map(|s| s.to_str().unwrap().to_string())
            .unwrap_or_default();
        if name == ".." || name.is_empty() {
            continue;
        }
        assert_eq!(file_stem(name), expected, "{}", name);
    }
    assert_eq!(file_stem(".."), "..");
    assert_eq!(file_stem("ab12cd34.pid"), "ab12cd34");
}

#[test]
fn concat_joins() {
    assert_eq!(concat_str("ab", "cd"), "abcd");
    assert_eq!(concat_str("", ""), "");
}

#[test]
fn exec_each_steps() {
    let commands = vec!["ls".to_string(), "ip a".to_string()];
    match exec_each_step(&commands, 1, false) {
        ExecEachStep::Run { args } => assert_eq!(args, vec!["-c".to_string(), "ip a".to_string()]),
        _ => panic!("the second command runs"),
    }
    assert!(matches!(exec_each_step(&commands, 2, false), ExecEachStep::Finished { result: Ok("all commands successfull.") }));
    assert!(matches!(exec_each_step(&commands, 1, true), ExecEachStep::Finished { result: Err("Could not exec Command") }));
}
