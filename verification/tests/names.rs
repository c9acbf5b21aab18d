use ok_face_mixer::kind::UnknownIdentifier;
use ok_face_mixer::{Smile, SmileType};

const NAMES: [(&str, SmileType); 16] = [
    ("grin", SmileType::Grin),
    ("angry", SmileType::Angry),
    ("flush", SmileType::Flush),
    ("he", SmileType::He),
    ("mad", SmileType::Mad),
    ("plead", SmileType::Plead),
    ("sad", SmileType::Sad),
    ("sg", SmileType::Sg),
    ("shock", SmileType::Shock),
    ("sl_smile", SmileType::SlSmile),
    ("sleep", SmileType::Sleep),
    ("smiley", SmileType::Smiley),
    ("tong", SmileType::Tong),
    ("unamus", SmileType::Unamus),
    ("wink", SmileType::Wink),
    ("zany", SmileType::Zany),
];

#[test]
fn to_str_test() {
    assert_eq!("grin", SmileType::Grin.to_string());
    assert_eq!("angry", SmileType::Angry.to_string());
    assert_eq!("he", SmileType::He.to_string());
}

#[test]
fn from_str_test() {
    assert_eq!(SmileType::Grin, SmileType::from_str("grin").unwrap());
    assert_eq!(
        SmileType::Grin,
        SmileType::from_str("/json/grin.json").unwrap()
    );
    assert_eq!(SmileType::Zany, SmileType::from_str("zany").unwrap());
    assert_eq!(
        SmileType::Zany,
        SmileType::from_str("/json/zany.json").unwrap()
    );
}

#[test]
fn api_query_test() {
    assert_eq!(
        "?left=grin&right=angry",
        Smile::new(SmileType::Grin, SmileType::Angry).api_query()
    );
}

#[test]
fn every_name_is_written_as_listed() {
    for (name, kind) in NAMES {
        assert_eq!(name, kind.to_string());
        assert_eq!(name, kind.name());
    }
}

#[test]
fn every_name_reads_back() {
    for (name, kind) in NAMES {
        assert_eq!(Ok(kind), SmileType::from_str(name));
        assert_eq!(Ok(kind), SmileType::from_name(name));
        assert_eq!(Ok(kind), SmileType::from_str(&kind.to_string()));
    }
}

#[test]
fn decoration_does_not_change_what_is_read() {
    for (name, kind) in NAMES {
        let decorated = format!("/json/{}.json", name);
        assert_eq!(SmileType::from_str(name), SmileType::from_str(&decorated));
        assert_eq!(Ok(kind), SmileType::from_str(&decorated));
    }
}

#[test]
fn decorated_zany_reads_as_zany() {
    assert_eq!(
        SmileType::from_str("zany"),
        SmileType::from_str("/json/zany.json")
    );
    assert_eq!(Ok(SmileType::Zany), SmileType::from_str("/json/zany.json"));
}

#[test]
fn prefix_and_suffix_come_off_separately() {
    assert_eq!(Ok(SmileType::Sad), SmileType::from_str("/json/sad"));
    assert_eq!(Ok(SmileType::Sad), SmileType::from_str("sad.json"));
    assert_eq!(Ok(SmileType::SlSmile), SmileType::from_str("/json/sl_smile.json"));
}

#[test]
fn decoration_comes_off_once_and_only_at_the_ends() {
    assert_eq!(Err(UnknownIdentifier), SmileType::from_str("/json//json/grin.json"));
    assert_eq!(Err(UnknownIdentifier), SmileType::from_str("grin.json.json"));
    assert_eq!(Err(UnknownIdentifier), SmileType::from_str("gr/json/in"));
    assert_eq!(Err(UnknownIdentifier), SmileType::from_str("gr.jsonin"));
    assert_eq!(Err(UnknownIdentifier), SmileType::from_str("/json/.json"));
    assert_eq!(Err(UnknownIdentifier), SmileType::from_str("/json/"));
    assert_eq!(Err(UnknownIdentifier), SmileType::from_str(".json"));
}

#[test]
fn exact_name_takes_no_decoration() {
    assert_eq!(Ok(SmileType::Wink), SmileType::from_name("wink"));
    assert_eq!(Err(UnknownIdentifier), SmileType::from_name("/json/wink.json"));
    assert_eq!(Err(UnknownIdentifier), SmileType::from_name("wink.json"));
}

#[test]
fn empty_text_is_rejected() {
    assert_eq!(Err(UnknownIdentifier), SmileType::from_str(""));
    assert_eq!(Err(UnknownIdentifier), SmileType::from_name(""));
}

#[test]
fn unknown_token_is_rejected() {
    assert_eq!(Err(UnknownIdentifier), SmileType::from_str("bogus"));
    assert_eq!(Err(UnknownIdentifier), SmileType::from_str("smile"));
    assert_eq!(Err(UnknownIdentifier), SmileType::from_str("/json/bogus.json"));
}

#[test]
fn partial_names_are_rejected() {
    assert_eq!(Err(UnknownIdentifier), SmileType::from_str("gri"));
    assert_eq!(Err(UnknownIdentifier), SmileType::from_str("grinn"));
    assert_eq!(Err(UnknownIdentifier), SmileType::from_str("sl"));
    assert_eq!(Err(UnknownIdentifier), SmileType::from_str("sl_smiley"));
    assert_eq!(Err(UnknownIdentifier), SmileType::from_str("slsmile"));
}

#[test]
fn wrong_casing_is_rejected() {
    for (name, _) in NAMES {
        assert_eq!(Err(UnknownIdentifier), SmileType::from_str(&name.to_uppercase()));
    }
    assert_eq!(Err(UnknownIdentifier), SmileType::from_str("Grin"));
    assert_eq!(Err(UnknownIdentifier), SmileType::from_str("SlSmile"));
    assert_eq!(Err(UnknownIdentifier), SmileType::from_str("/json/Zany.json"));
}

#[test]
fn white_space_is_rejected() {
    for (name, _) in NAMES {
        assert_eq!(Err(UnknownIdentifier), SmileType::from_str(&format!(" {}", name)));
        assert_eq!(Err(UnknownIdentifier), SmileType::from_str(&format!("{} ", name)));
        assert_eq!(Err(UnknownIdentifier), SmileType::from_str(&format!("{}\n", name)));
    }
    assert_eq!(Err(UnknownIdentifier), SmileType::from_str("sl smile"));
    assert_eq!(Err(UnknownIdentifier), SmileType::from_str("/json/ grin.json"));
}

#[test]
fn text_beyond_ascii_is_rejected() {
    assert_eq!(Err(UnknownIdentifier), SmileType::from_str("gr\u{ed}n"));
    assert_eq!(Err(UnknownIdentifier), SmileType::from_str("\u{1f600}"));
    assert_eq!(Err(UnknownIdentifier), SmileType::from_str("/json/\u{1f600}.json"));
}

#[test]
fn faces_come_in_declaration_order() {
    let all = SmileType::all();
    assert_eq!(16, all.len());
    assert_eq!(16, SmileType::COUNT);
    for (i, (_, kind)) in NAMES.iter().enumerate() {
        assert_eq!(*kind, all[i]);
        assert_eq!(i, kind.index());
        assert_eq!(Some(*kind), SmileType::get(i));
    }
    assert_eq!(None, SmileType::get(16));
    assert_eq!(None, SmileType::get(usize::MAX));
}

#[test]
fn random_face_is_one_of_the_sixteen() {
    let mut seen = [false; 16];
    for _ in 0..2000 {
        let kind = SmileType::random();
        assert_eq!(Some(kind), SmileType::get(kind.index()));
        seen[kind.index()] = true;
    }
    assert!(seen.iter().filter(|s| **s).count() > 1);
}

#[test]
fn api_query_names_both_faces() {
    assert_eq!(
        "?left=sl_smile&right=zany",
        Smile::new(SmileType::SlSmile, SmileType::Zany).api_query()
    );
    assert_eq!(
        "?left=he&right=he",
        Smile::new(SmileType::He, SmileType::He).api_query()
    );
    for (l, left) in NAMES {
        for (r, right) in NAMES {
            assert_eq!(
                format!("?left={}&right={}", l, r),
                Smile::new(left, right).api_query()
            );
        }
    }
}

#[test]
fn smile_keeps_its_two_faces() {
    let smile = Smile::new(SmileType::Mad, SmileType::Tong);
    assert_eq!(SmileType::Mad, smile.left);
    assert_eq!(SmileType::Tong, smile.right);
}
