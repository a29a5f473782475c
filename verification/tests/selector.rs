use lifxi::http::{Randomize, Select, Selector, SelectorParseError, Zones};

#[test]
fn selector_serialize() {
    let selector = Selector::All;
    assert_eq!(&selector.render(), "all");
    let selector = Selector::Label("Living Room".to_string());
    assert_eq!(&selector.render(), "label:Living Room");
    let selector = Selector::Id("abcd".to_string());
    assert_eq!(&selector.render(), "id:abcd");
    let selector = Selector::GroupId("efgh".to_string());
    assert_eq!(&selector.render(), "group_id:efgh");
    let selector = Selector::Group("Lounge".to_string());
    assert_eq!(&selector.render(), "group:Lounge");
    let selector = Selector::LocationId("ijkl".to_string());
    assert_eq!(&selector.render(), "location_id:ijkl");
    let selector = Selector::Location("Summer Home".to_string());
    assert_eq!(&selector.render(), "location:Summer Home");
    let selector = Selector::SceneId("mnop".to_string());
    assert_eq!(&selector.render(), "scene_id:mnop");
    let selector = Selector::All.zoned(17);
    assert_eq!(&selector.render(), "all|17");
    let selector = Selector::All.zoned(255..);
    assert_eq!(&selector.render(), "all|255");
    let selector = Selector::All.zoned(18..19);
    assert_eq!(&selector.render(), "all|18");
    let selector = Selector::All.zoned(3..=5);
    assert_eq!(&selector.render(), "all|3|4|5");
    let selector = Selector::All.zoned(..=2);
    assert_eq!(&selector.render(), "all|0|1|2");
    let selector = Selector::All.random();
    assert_eq!(&selector.render(), "all:random");
    let zones = vec![1, 2];
    let selector = Selector::All.zoned(zones.iter().collect::<Zones>());
    assert_eq!(&selector.render(), "all|1|2");
    let selector = Selector::All.zoned(zones);
    assert_eq!(&selector.render(), "all|1|2");
}

#[test]
fn selector_deserialize() {
    let selector = "all".parse();
    assert_eq!(selector, Ok(Selector::All));
    let selector = "label:Living Room".parse();
    assert_eq!(selector, Ok(Selector::Label("Living Room".to_string())));
    let selector = "id:abcd".parse();
    assert_eq!(selector, Ok(Selector::Id("abcd".to_string())));
    let selector = "group_id:efgh".parse();
    assert_eq!(selector, Ok(Selector::GroupId("efgh".to_string())));
    let selector = "group:Lounge".parse();
    assert_eq!(selector, Ok(Selector::Group("Lounge".to_string())));
    let selector = "location:ijkl".parse();
    assert_eq!(selector, Ok(Selector::Location("ijkl".to_string())));
    let selector = "location:Summer Home".parse();
    assert_eq!(selector, Ok(Selector::Location("Summer Home".to_string())));
    let selector = "scene_id:mnop".parse();
    assert_eq!(selector, Ok(Selector::SceneId("mnop".to_string())));
}

#[test]
fn selector_parse_errors() {
    assert_eq!("label".parse::<Selector>(), Err(SelectorParseError::NoLabel));
    assert_eq!("".parse::<Selector>(), Err(SelectorParseError::NoLabel));
    assert_eq!("label:".parse::<Selector>(), Err(SelectorParseError::NoValue));
    assert_eq!("colour:x".parse::<Selector>(), Err(SelectorParseError::UnknownLabel));
    assert_eq!("all:x".parse::<Selector>(), Err(SelectorParseError::UnknownLabel));
}

#[test]
fn selector_round_trip() {
    let selectors = vec![
        Selector::All,
        Selector::Label("Kitchen: north".to_string()),
        Selector::Id("d073d5000000".to_string()),
        Selector::GroupId("1c8de82b81f445e7cfaafae49b259c71".to_string()),
        Selector::Group(" Lounge ".to_string()),
        Selector::LocationId("1d6fe8ef0fde4c6d77b0012dc736662c".to_string()),
        Selector::Location("all".to_string()),
        Selector::SceneId("a:b:c".to_string()),
    ];
    for selector in selectors {
        assert_eq!(Selector::parse(&selector.render()), Ok(selector));
    }
}

#[test]
fn selector_empty_value_is_not_read_back() {
    let selector = Selector::Label(String::new());
    assert_eq!(selector.render(), "label:");
    assert_eq!(Selector::parse("label:"), Err(SelectorParseError::NoValue));
}

#[test]
fn selector_zoned_appends_to_any_base() {
    let bases = vec![
        Selector::All,
        Selector::Label("Desk".to_string()),
        Selector::SceneId("mnop".to_string()),
    ];
    for base in bases {
        let plain = base.render();
        assert_eq!(base.zoned(3..=5).render(), format!("{}|3|4|5", plain));
    }
}

#[test]
fn selector_zones_from_every_shape() {
    assert_eq!(Zones::from(7).list, vec![7]);
    assert_eq!(Zones::from(vec![9, 1, 9]).list, vec![9, 1, 9]);
    assert_eq!(Zones::from(2..5).list, vec![2, 3, 4]);
    assert_eq!(Zones::from(5..2).list, Vec::<u8>::new());
    assert_eq!(Zones::from(253..=255).list, vec![253, 254, 255]);
    assert_eq!(Zones::from(0..=0).list, vec![0]);
    assert_eq!(Zones::from(9..=3).list, Vec::<u8>::new());
    assert_eq!(Zones::from(254..).list, vec![254, 255]);
    assert_eq!(Zones::from(..3).list, vec![0, 1, 2]);
    assert_eq!(Zones::from(..0).list, Vec::<u8>::new());
    assert_eq!(Zones::from(..=2).list, vec![0, 1, 2]);
    assert_eq!(Zones::from(..=255).list.len(), 256);
    let mut spent = 3..=5;
    for _ in spent.by_ref() {}
    assert_eq!(Zones::from(spent).list, Vec::<u8>::new());
    let gathered: Zones = vec![4u8, 2].into_iter().collect();
    assert_eq!(gathered.list, vec![4, 2]);
}

#[test]
fn selector_order_of_zones_is_kept() {
    let selector = Selector::Id("abcd".to_string()).zoned(vec![200, 3, 200, 0]);
    assert_eq!(selector.render(), "id:abcd|200|3|200|0");
}

#[test]
fn selector_random_wraps_pure_selectors() {
    let sel = Selector::Group("Living Room".to_string()).random();
    assert_eq!(&sel.render(), "group:Living Room:random");
    let sel = Selector::Group("Living Room".to_string()).zoned(1).random();
    assert_eq!(&sel.render(), "group:Living Room|1:random");
}

#[test]
fn selector_end_to_end() {
    let sel = Selector::Group("Living Room".to_string()).zoned(0..2).random();
    assert_eq!(sel.render(), "group:Living Room|0|1:random");
}

#[test]
fn selector_parse_error_words() {
    assert_eq!(SelectorParseError::NoLabel.message(), "Unrecognized selector.");
    assert_eq!(SelectorParseError::NoValue.message(), "No value given for label.");
    assert_eq!(SelectorParseError::UnknownLabel.message(), "Unrecognized label.");
}

#[test]
fn selector_zoned_takes_zones_as_they_are() {
    let zones = Zones::from(vec![8, 0, 8]);
    assert_eq!(Selector::All.zoned(zones).render(), "all|8|0|8");
}
