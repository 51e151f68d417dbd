use webadmin::transform::{apply_all, Transformer};

#[test]
fn trim_twice_is_trim_once() {
    let once = Transformer::Trim.apply("abc");
    let twice = Transformer::Trim.apply(&once);
    assert_eq!(once, "abc");
    assert_eq!(twice, once);
}

#[test]
fn trim_drops_white_space_at_both_ends_only() {
    assert_eq!(Transformer::Trim.apply("  a b \t\n"), "a b");
    assert_eq!(Transformer::Trim.apply(" 0.0.0.0:25 "), "0.0.0.0:25");
    assert_eq!(Transformer::Trim.apply("\u{a0}x\u{3000}"), "x");
    assert_eq!(Transformer::Trim.apply(" \t "), "");
    assert_eq!(Transformer::Trim.apply(""), "");
}

#[test]
fn remove_spaces_drops_every_white_space() {
    assert_eq!(Transformer::RemoveSpaces.apply(" a b\tc\n"), "abc");
    assert_eq!(Transformer::RemoveSpaces.apply("abc"), "abc");
    assert_eq!(Transformer::RemoveSpaces.apply("   "), "");
}

#[test]
fn lowercase_lowers_the_letters_a_to_z() {
    assert_eq!(Transformer::Lowercase.apply("John.Doe@EXAMPLE.org"), "john.doe@example.org");
    assert_eq!(Transformer::Lowercase.apply("A-Z az 09 [@`{"), "a-z az 09 [@`{");
    assert_eq!(Transformer::Lowercase.apply("\u{c4}B"), "\u{c4}b");
}

#[test]
fn each_transformer_is_idempotent() {
    let inputs = ["", "abc", "  Mixed Case  ", "\tTabs\tAnd Spaces ", " a ", "A"];
    for t in [Transformer::Trim, Transformer::RemoveSpaces, Transformer::Lowercase] {
        for input in inputs {
            let once = t.apply(input);
            assert_eq!(t.apply(&once), once);
        }
    }
}

#[test]
fn a_list_of_transformers_runs_first_to_last() {
    let ts = vec![Transformer::RemoveSpaces, Transformer::Lowercase];
    assert_eq!(apply_all(&ts, " John.Doe@EXAMPLE.org "), "john.doe@example.org");
    assert_eq!(apply_all(&Vec::new(), " Kept As It Is "), " Kept As It Is ");
}

#[test]
fn a_list_of_transformers_is_idempotent() {
    let lists = [
        vec![Transformer::Trim, Transformer::Lowercase],
        vec![Transformer::Lowercase, Transformer::RemoveSpaces, Transformer::Trim],
        vec![Transformer::RemoveSpaces],
    ];
    for ts in lists.iter() {
        for input in ["  Some Input ", "x", "", " A B C "] {
            let once = apply_all(ts, input);
            assert_eq!(apply_all(ts, &once), once);
        }
    }
}
