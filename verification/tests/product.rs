use lifxi::common::product::Product;
use lifxi::http::Reachability;

fn all() -> Vec<Product> {
    vec![
        Product::Original1000,
        Product::Color650,
        Product::White800LV,
        Product::White800HV,
        Product::White900BR30,
        Product::Color1000BR30,
        Product::Color1000,
        Product::LIFXA19,
        Product::LIFXBR30,
        Product::LIFXPlusA19,
        Product::LIFXPlusBR30,
        Product::LIFXZ,
        Product::LIFXZ2,
        Product::LIFXDownlight,
        Product::LIFXBeam,
        Product::LIFXMini,
        Product::LIFXMiniDayDusk,
        Product::LIFXMiniWhite,
        Product::LIFXGU10,
        Product::LIFXTile,
    ]
}

#[test]
fn product_ids() {
    let pids: Vec<u32> = all().iter().map(|p| p.pid()).collect();
    assert_eq!(
        pids,
        vec![1, 3, 10, 11, 18, 20, 22, 27, 28, 29, 30, 31, 32, 36, 38, 49, 50, 51, 52, 55]
    );
    for p in all() {
        assert_eq!(p.vid(), 1);
    }
}

#[test]
fn product_ids_tell_products_apart() {
    let products = all();
    for a in &products {
        for b in &products {
            assert_eq!(a.pid() == b.pid(), a == b);
        }
    }
}

#[test]
fn product_names() {
    assert_eq!(Product::Original1000.name(), "Original 1000");
    assert_eq!(Product::White800LV.name(), "White 800 (Low Voltage)");
    assert_eq!(Product::White800HV.name(), "White 800 (High Voltage)");
    assert_eq!(Product::White900BR30.name(), "White 900 BR30 (Low Voltage)");
    assert_eq!(Product::LIFXPlusA19.name(), "LIFX+ A19");
    assert_eq!(Product::LIFXZ2.name(), "LIFX Z 2");
    assert_eq!(Product::LIFXMiniDayDusk.name(), "LIFX Mini Day and Dusk");
    assert_eq!(Product::LIFXTile.name(), "LIFX Tile");
}

#[test]
fn product_features() {
    let white: Vec<Product> = all().into_iter().filter(|p| !p.color()).collect();
    assert_eq!(
        white,
        vec![
            Product::White800LV,
            Product::White800HV,
            Product::White900BR30,
            Product::LIFXMiniDayDusk,
            Product::LIFXMiniWhite,
        ]
    );
    let infrared: Vec<Product> = all().into_iter().filter(|p| p.infrared()).collect();
    assert_eq!(infrared, vec![Product::LIFXPlusA19, Product::LIFXPlusBR30]);
    let multizone: Vec<Product> = all().into_iter().filter(|p| p.multizone()).collect();
    assert_eq!(multizone, vec![Product::LIFXZ, Product::LIFXZ2, Product::LIFXBeam]);
    for p in all() {
        if p.infrared() || p.multizone() {
            assert!(p.color());
        }
    }
}

#[test]
fn reachability_variants_differ() {
    assert_ne!(Reachability::Reachable, Reachability::TimedOut);
    assert_ne!(Reachability::TimedOut, Reachability::Offline);
}
