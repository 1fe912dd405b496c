use isorelay::config::{process_defines, ConfigSource, Service};
use isorelay::template::{chars_of, replace_token};

fn pairs(list: &[(&str, &str)]) -> Vec<(String, String)> {
    list.iter().map(|(k, v)| (k.to_string(), v.to_string())).collect()
}

#[test]
fn chars_of_gives_the_characters_in_order() {
    assert_eq!(chars_of("a$ü"), vec!['a', '$', 'ü']);
    assert_eq!(chars_of(""), Vec::<char>::new());
}

#[test]
fn replace_token_replaces_every_occurrence() {
    assert_eq!(replace_token("/run/$ID/$ID.sock", "ID", "svc1"), "/run/svc1/svc1.sock");
}

#[test]
fn replace_token_leaves_other_dollars_alone() {
    assert_eq!(replace_token("$HOME/$ID/$", "ID", "x"), "$HOME/x/$");
}

#[test]
fn replace_token_without_occurrence_changes_nothing() {
    assert_eq!(replace_token("/tmp/plain.sock", "ID", "x"), "/tmp/plain.sock");
    assert_eq!(replace_token("", "ID", "x"), "");
}

#[test]
fn replace_token_takes_the_leftmost_match_and_goes_on_behind_it() {
    assert_eq!(replace_token("$$A", "A", "x"), "$x");
    assert_eq!(replace_token("$a$a$a", "a$a", "-"), "-$a");
    assert_eq!(replace_token("$A$A", "A", "$A"), "$A$A");
}

#[test]
fn replace_token_matches_a_name_as_a_prefix_of_a_longer_word() {
    assert_eq!(replace_token("$IDX", "ID", "7"), "7X");
}

#[test]
fn replace_token_with_empty_name_replaces_each_dollar() {
    assert_eq!(replace_token("a$b$", "", "+"), "a+b+");
}

#[test]
fn replace_token_with_empty_value_removes_the_token() {
    assert_eq!(replace_token("/a/$X/b", "X", ""), "/a//b");
}

#[test]
fn replace_token_counts_characters_not_bytes() {
    assert_eq!(replace_token("é$ñ→$ñ", "ñ", "ü"), "éü→ü");
}

#[test]
fn replace_token_agrees_with_the_standard_replace() {
    let texts = ["", "$", "$$", "$A", "x$Ay$A", "$A$", "$$A$$A", "$AB$A", "aaa", "$a$a$a$a", "ü$Aü"];
    let names = ["", "A", "AB", "a$a", "$", "$A"];
    let values = ["", "v", "$A", "$$", "long value"];
    for text in texts {
        for name in names {
            for value in values {
                let expected = text.replace(&format!("${}", name), value);
                assert_eq!(replace_token(text, name, value), expected);
            }
        }
    }
}

#[test]
fn no_defines_leave_the_template() {
    assert_eq!(process_defines("/tmp/$ID.iso", &[]), "/tmp/$ID.iso");
}

#[test]
fn unmatched_name_stays_in_the_path() {
    let defines = pairs(&[("ID", "svc1")]);
    assert_eq!(process_defines("/tmp/$OTHER/$ID", &defines), "/tmp/$OTHER/svc1");
}

#[test]
fn later_pair_rewrites_earlier_value() {
    let defines = pairs(&[("A", "$B"), ("B", "X")]);
    assert_eq!(process_defines("$A", &defines), "X");
}

#[test]
fn earlier_pair_does_not_see_later_value() {
    let defines = pairs(&[("B", "X"), ("A", "$B")]);
    assert_eq!(process_defines("$A", &defines), "$B");
}

#[test]
fn each_pair_is_applied_once_in_list_order() {
    let defines = pairs(&[("A", "1"), ("A", "2"), ("B", "$A")]);
    assert_eq!(process_defines("$A-$B", &defines), "1-$A");
}

#[test]
fn resolving_a_resolved_path_changes_nothing() {
    let defines = pairs(&[("A", "$B"), ("B", "X"), ("DIR", "/run")]);
    let once = process_defines("$DIR/$A/$B.sock", &defines);
    assert_eq!(once, "/run/X/X.sock");
    assert_eq!(process_defines(&once, &defines), once);
}

#[test]
fn resolving_twice_differs_while_tokens_are_left() {
    let defines = pairs(&[("B", "X"), ("A", "$B")]);
    let once = process_defines("$A", &defines);
    assert_eq!(once, "$B");
    assert_eq!(process_defines(&once, &defines), "X");
}

#[test]
fn process_defines_agrees_with_sequential_standard_replace() {
    let defines = pairs(&[("ID", "svc$N"), ("N", "1"), ("", "!"), ("svc", "s")]);
    for template in ["", "/tmp/$ID.raw", "$N$ID$", "$$ID", "none"] {
        let mut expected = template.to_owned();
        for (k, v) in &defines {
            expected = expected.replace(&format!("${}", k), v);
        }
        assert_eq!(process_defines(template, &defines), expected);
    }
}

#[test]
fn service_paths_are_resolved() {
    let service = Service { src: "/tmp/$ID.raw".to_string(), dst: "/tmp/$ID.iso".to_string() };
    let defines = pairs(&[("ID", "svc1")]);
    assert_eq!(service.src_in(&defines), "/tmp/svc1.raw");
    assert_eq!(service.dst_in(&defines), "/tmp/svc1.iso");
}

#[test]
fn service_paths_are_resolved_independently() {
    let service = Service { src: "$A".to_string(), dst: "$B".to_string() };
    let defines = pairs(&[("A", "raw"), ("B", "iso")]);
    assert_eq!(service.src_in(&defines), "raw");
    assert_eq!(service.dst_in(&defines), "iso");
}

#[test]
fn a_lone_dash_is_standard_input() {
    assert_eq!(ConfigSource::from_arg("-"), ConfigSource::Stdin);
}

#[test]
fn anything_else_is_a_file_path() {
    for arg in ["", "--", "./-", "-x", "conf.json", "/etc/relay/conf.json", "–"] {
        assert_eq!(ConfigSource::from_arg(arg), ConfigSource::File(arg.to_string()));
    }
}
