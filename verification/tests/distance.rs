use apt_arch::distance::edit_distance;
use apt_arch::verbs::vocabulary;

#[test]
fn distance_classic_example() {
    assert_eq!(edit_distance("kitten", "sitting"), 3);
}

#[test]
fn distance_transposed_verb() {
    assert_eq!(edit_distance("isntall", "install"), 2);
    assert_eq!(edit_distance("intall", "install"), 1);
}

#[test]
fn distance_empty_sides() {
    assert_eq!(edit_distance("", ""), 0);
    assert_eq!(edit_distance("", "abc"), 3);
    assert_eq!(edit_distance("abcd", ""), 4);
}

#[test]
fn distance_self_is_zero_on_vocabulary() {
    for verb in vocabulary() {
        assert_eq!(edit_distance(verb, verb), 0);
    }
}

#[test]
fn distance_symmetric_on_vocabulary() {
    let vocab = vocabulary();
    for a in &vocab {
        for b in &vocab {
            assert_eq!(edit_distance(a, b), edit_distance(b, a));
        }
    }
}

#[test]
fn distance_agrees_with_strsim() {
    let vocab = vocabulary();
    for a in &vocab {
        for b in &vocab {
            assert_eq!(edit_distance(a, b), strsim::levenshtein(a, b));
        }
    }
    let probes = ["isntall", "xyzxyzxyz", "", "updaet", "kitten", "sitting", "hëlp"];
    for p in &probes {
        for b in &vocab {
            assert_eq!(edit_distance(p, b), strsim::levenshtein(p, b));
        }
    }
}
