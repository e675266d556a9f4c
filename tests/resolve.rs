use adapter_info::format::{catalog, texture_from_lowercase, TextureFormat};
use adapter_info::resolve::texture_from_str;
use adapter_info::text::same_text;

fn mixed_case(s: &str) -> String {
    s.chars()
        .enumerate()
        .map(|(i, c)| if i % 2 == 0 { c.to_ascii_uppercase() } else { c })
        .collect()
}

#[test]
fn every_key_resolves_in_any_case() {
    for f in catalog() {
        let key = f.key();
        assert_eq!(texture_from_str(key), Some(f), "{}", key);
        assert_eq!(texture_from_str(&key.to_uppercase()), Some(f), "{}", key);
        assert_eq!(texture_from_str(&mixed_case(key)), Some(f), "{}", key);
    }
}

#[test]
fn catalog_lists_every_format_once() {
    let all = catalog();
    assert_eq!(all.len(), 71);
    for (i, a) in all.iter().enumerate() {
        for b in &all[i + 1..] {
            assert_ne!(a, b);
        }
    }
}

#[test]
fn distinct_keys_resolve_to_distinct_formats() {
    let all = catalog();
    let resolved: Vec<TextureFormat> = all
        .iter()
        .map(|f| texture_from_str(f.key()).unwrap())
        .collect();
    for i in 0..resolved.len() {
        for j in i + 1..resolved.len() {
            assert_ne!(all[i].key(), all[j].key());
            assert_ne!(resolved[i], resolved[j]);
        }
    }
}

#[test]
fn unknown_name_not_found() {
    assert_eq!(texture_from_str("not-a-format"), None);
    assert_eq!(texture_from_str("r8unor"), None);
    assert_eq!(texture_from_str("r8unormx"), None);
    assert_eq!(texture_from_str("rgba8"), None);
}

#[test]
fn empty_name_not_found() {
    assert_eq!(texture_from_str(""), None);
    assert_eq!(texture_from_lowercase(""), None);
}

#[test]
fn surrounding_whitespace_not_found() {
    assert_eq!(texture_from_str(" r8unorm "), None);
    assert_eq!(texture_from_str(" r8unorm"), None);
    assert_eq!(texture_from_str("r8unorm\n"), None);
    assert_eq!(texture_from_str("r8unorm"), Some(TextureFormat::R8Unorm));
}

#[test]
fn astc_family_not_found() {
    assert_eq!(texture_from_str("astc-4x4-unorm"), None);
    assert_eq!(texture_from_str("ASTC-12x12-unorm-srgb"), None);
    assert_eq!(texture_from_str("astc-5x5-hdr"), None);
}

#[test]
fn renamed_entries_resolve() {
    assert_eq!(texture_from_str("rg11b10ufloat"), Some(TextureFormat::Rg11b10Float));
    assert_eq!(texture_from_str("bc6hrgbfloat"), Some(TextureFormat::Bc6hRgbSfloat));
    assert_eq!(texture_from_str("bc6hrgbufloat"), Some(TextureFormat::Bc6hRgbUfloat));
    assert_eq!(texture_from_str("rg11b10float"), None);
}

#[test]
fn uppercase_names_are_lowercased_first() {
    assert_eq!(texture_from_str("DEPTH24PLUSSTENCIL8"), Some(TextureFormat::Depth24PlusStencil8));
    assert_eq!(texture_from_str("EacRg11Snorm"), Some(TextureFormat::EacRg11Snorm));
    assert_eq!(texture_from_lowercase("EacRg11Snorm"), None);
    assert_eq!(texture_from_lowercase("eacrg11snorm"), Some(TextureFormat::EacRg11Snorm));
}

#[test]
fn keys_are_lowercase_names() {
    assert_eq!(TextureFormat::R8Unorm.key(), "r8unorm");
    assert_eq!(TextureFormat::Rgba8UnormSrgb.key(), "rgba8unormsrgb");
    assert_eq!(TextureFormat::Etc2Rgb8A1UnormSrgb.key(), "etc2rgb8a1unormsrgb");
}

#[test]
fn same_text_compares_characters() {
    assert!(same_text("r8unorm", "r8unorm"));
    assert!(!same_text("r8unorm", "r8snorm"));
    assert!(!same_text("r8unorm", "r8unorm "));
    assert!(same_text("", ""));
    assert!(same_text("é", "é"));
    assert!(!same_text("é", "e"));
}
