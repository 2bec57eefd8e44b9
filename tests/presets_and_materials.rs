use arrt::{
    KeyedTable, get_default_preset, select_preset, Material, MaterialBank, MaterialKind, QualityPreset,
    QualityPresetBank, Rgb, CHANNEL_ONE,
};

fn preset(name: &str, w: u32, h: u32, spp: usize, bounces: u32) -> QualityPreset {
    QualityPreset {
        name: name.to_string(),
        image_width: w,
        image_height: h,
        samples_per_pixel: spp,
        max_bounces: bounces,
    }
}

fn material(diffuse: Rgb, absorbed: u16, kind: MaterialKind) -> Material {
    Material { name: String::new(), diffuse, absorbed, kind }
}

#[test]
fn default_quality_preset_values() {
    let p = QualityPresetBank::get_default();
    assert_eq!(p.name, "default");
    assert_eq!((p.image_width, p.image_height), (640, 480));
    assert_eq!(p.samples_per_pixel, 8);
    assert_eq!(p.max_bounces, 8);
}

#[test]
fn fallback_preset_values() {
    let p = get_default_preset();
    assert_eq!(p.name, "default");
    assert_eq!((p.image_width, p.image_height), (640, 480));
    assert_eq!(p.samples_per_pixel, 16);
    assert_eq!(p.max_bounces, 16);
}

#[test]
fn preset_lookup_takes_key_as_name() {
    let mut bank = QualityPresetBank::new("quality_presets.json".to_string());
    bank.insert("low".to_string(), preset("ignored", 320, 240, 2, 3));
    let p = bank.get("low");
    assert_eq!(p.name, "low");
    assert_eq!((p.image_width, p.image_height, p.samples_per_pixel, p.max_bounces), (320, 240, 2, 3));
    assert!(bank.contains("low"));
    assert_eq!(bank.source(), "quality_presets.json");
}

#[test]
fn preset_insert_replaces_same_key() {
    let mut bank = QualityPresetBank::new(String::new());
    bank.insert("low".to_string(), preset("", 320, 240, 2, 3));
    bank.insert("high".to_string(), preset("", 1920, 1080, 64, 32));
    bank.insert("low".to_string(), preset("", 160, 120, 1, 1));
    assert_eq!(bank.get("low").image_width, 160);
    assert_eq!(bank.get("high").image_width, 1920);
}

#[test]
fn missing_preset_falls_back_to_default() {
    let bank = QualityPresetBank::new(String::new());
    assert!(!bank.contains("ultra"));
    let p = bank.get("ultra");
    assert_eq!(p.name, "default");
    assert_eq!(p.samples_per_pixel, 8);
}

#[test]
fn select_preset_falls_back_to_sixteen_samples() {
    let mut bank = QualityPresetBank::new(String::new());
    bank.insert("low".to_string(), preset("", 320, 240, 2, 3));
    assert_eq!(select_preset(&bank, "low").samples_per_pixel, 2);
    let p = select_preset(&bank, "missing");
    assert_eq!(p.samples_per_pixel, 16);
    assert_eq!(p.max_bounces, 16);
}

#[test]
fn ray_count_is_pixels_times_samples() {
    assert_eq!(preset("", 640, 480, 8, 8).ray_count(), Some(640 * 480 * 8));
    assert_eq!(preset("", 0, 480, 8, 8).ray_count(), Some(0));
    assert_eq!(preset("", u32::MAX, u32::MAX, usize::MAX, 8).ray_count(), None);
    assert_eq!(preset("", u32::MAX, u32::MAX, 0, 8).ray_count(), Some(0));
}

#[test]
fn default_material_is_reddish_diffuse() {
    let m = MaterialBank::get_default();
    assert_eq!(m.name, "default");
    assert_eq!(m.diffuse, Rgb { r: CHANNEL_ONE, g: 0, b: 0 });
    assert_eq!(m.absorbed, 19661);
    assert_eq!(m.kind, MaterialKind::Diffuse);
}

#[test]
fn material_lookup_and_fallback() {
    let mut bank = MaterialBank::new("materials.json".to_string());
    bank.insert("blue".to_string(), material(Rgb { r: 0, g: 0, b: CHANNEL_ONE }, 0, MaterialKind::Diffuse));
    let m = bank.get("blue");
    assert_eq!(m.name, "blue");
    assert_eq!(m.diffuse.b, CHANNEL_ONE);
    assert!(bank.contains("blue"));
    assert!(!bank.contains("green"));
    assert_eq!(bank.get("green").name, "default");
    assert_eq!(bank.source(), "materials.json");
}

#[test]
fn reflectance_is_diffuse_times_unabsorbed() {
    let m = material(Rgb { r: CHANNEL_ONE, g: 32768, b: 0 }, 0, MaterialKind::Diffuse);
    assert_eq!(m.reflectance(), Rgb { r: CHANNEL_ONE, g: 32768, b: 0 });
    let black = material(Rgb { r: CHANNEL_ONE, g: 32768, b: 0 }, CHANNEL_ONE, MaterialKind::Diffuse);
    assert_eq!(black.reflectance(), Rgb { r: 0, g: 0, b: 0 });
    assert_eq!(MaterialBank::get_default().reflectance(), Rgb { r: 45874, g: 0, b: 0 });
}

#[test]
fn only_mirror_name_is_mirror() {
    assert_eq!(Material::kind_for_name("mirror"), MaterialKind::Mirror);
    assert_eq!(Material::kind_for_name("Mirror"), MaterialKind::Diffuse);
    assert_eq!(Material::kind_for_name("red"), MaterialKind::Diffuse);
}

#[test]
fn colour_arithmetic() {
    let half = Rgb { r: 32768, g: 32768, b: 32768 };
    let white = Rgb::white();
    assert_eq!(white.mul(half), half);
    assert_eq!(half.mul(half), Rgb { r: 16384, g: 16384, b: 16384 });
    assert_eq!(half.scale(0), Rgb::black());
    let a = Rgb { r: 100, g: 200, b: 300 };
    let b = Rgb { r: 1000, g: 2000, b: 3000 };
    assert_eq!(a.lerp(b, 0), a);
    assert_eq!(a.lerp(b, CHANNEL_ONE), b);
}

#[test]
fn keyed_table_replaces_and_finds() {
    let mut t: KeyedTable<u32> = KeyedTable::new();
    assert_eq!(t.get("a"), None);
    t.insert("a".to_string(), 1);
    t.insert("b".to_string(), 2);
    t.insert("a".to_string(), 3);
    assert_eq!(t.get("a"), Some(&3));
    assert_eq!(t.get("b"), Some(&2));
    assert_eq!(t.get("c"), None);
}
