use caesar::{transform, transform_units};

#[test]
fn alphabet() {
    let cipher = transform("ABCDEFGHIJKLMNOPQRSTUVWXYZ", 23);
    assert_eq!("XYZABCDEFGHIJKLMNOPQRSTUVW", cipher.as_str());

    let cipher = transform("ABCDEFGHIJKLMNOPQRSTUVWXYZabcdefghijklmnopqrstuvwxyz", 13);
    assert_eq!(
        "NOPQRSTUVWXYZABCDEFGHIJKLMnopqrstuvwxyzabcdefghijklm",
        cipher.as_str()
    );
    let cipher1 = transform(cipher.as_str(), 13);
    assert_eq!(
        "ABCDEFGHIJKLMNOPQRSTUVWXYZabcdefghijklmnopqrstuvwxyz",
        cipher1.as_str()
    );
}

#[test]
fn storytime() {
    let cipher = transform("THE QUICK BROWN FOX JUMPS OVER THE LAZY DOG", -3);
    assert_eq!("QEB NRFZH YOLTK CLU GRJMP LSBO QEB IXWV ALD", cipher.as_str());

    let cipher = transform("defend the east wall of the castle", 1);
    assert_eq!("efgfoe uif fbtu xbmm pg uif dbtumf", cipher.as_str());
}

#[test]
fn round_trip_complementary_shifts() {
    let plain = "AttackAtDawn";
    for s in [0i32, 1, 5, 13, 25] {
        let there = transform(plain, s);
        let back = transform(there.as_str(), 26 - s);
        assert_eq!(plain, back.as_str());
    }
    // 13 is self-inverse modulo 26
    let back = transform(transform(plain, 13).as_str(), 13);
    assert_eq!(plain, back.as_str());
}

#[test]
fn case_is_preserved() {
    let cipher = transform("aZ", 5);
    assert_eq!("fE", cipher.as_str());
    let cipher = transform("Hello World", 2);
    assert_eq!("Jgnnq Yqtnf", cipher.as_str());
}

#[test]
fn non_letters_pass_through() {
    let plain = "0123456789 .,;:!?-_()[]{}";
    for s in [0i32, 7, 19, -4] {
        assert_eq!(plain, transform(plain, s).as_str());
    }
}

#[test]
fn multi_character_clusters_pass_through() {
    // 'a' followed by a combining acute accent is one two-character
    // cluster: it must not be rotated, while plain letters around it are.
    let cipher = transform("a\u{301}bc", 1);
    assert_eq!("a\u{301}cd", cipher.as_str());

    // A single non-ASCII character is one cluster and passes through.
    let cipher = transform("héllo wörld", 1);
    assert_eq!("iémmp xösme", cipher.as_str());

    // An emoji with a skin-tone modifier is one multi-character cluster.
    let cipher = transform("ok \u{1F44D}\u{1F3FD}!", 2);
    assert_eq!("qm \u{1F44D}\u{1F3FD}!", cipher.as_str());
}

#[test]
fn equivalent_shifts_agree() {
    let plain = "The five boxing wizards jump quickly";
    let expected = transform(plain, 1);
    for s in [27i32, -25, 261] {
        assert_eq!(expected.as_str(), transform(plain, s).as_str());
    }
}

#[test]
fn empty_input_gives_empty_output() {
    for s in [0i32, 13, -128, 127, 1000, -1000] {
        assert_eq!("", transform("", s).as_str());
    }
}

#[test]
fn units_mirror_clusters_in_order() {
    let units = transform_units("a\u{301}bz C9", 1);
    let expected = ["a\u{301}", "c", "a", " ", "D", "9"];
    assert_eq!(units.len(), expected.len());
    for (unit, want) in units.iter().zip(expected.iter()) {
        assert_eq!(unit.as_str(), *want);
    }

    // Concatenating the units gives exactly the whole-text transform.
    let mut joined = String::new();
    for unit in &units {
        joined.push_str(unit.as_str());
    }
    assert_eq!(transform("a\u{301}bz C9", 1).as_str(), joined.as_str());
}
