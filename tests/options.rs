use adapter_info::format::TextureFormat;
use adapter_info::options::{classify_option, is_help_request, requested_queries, Query};

fn args(items: &[&str]) -> Vec<String> {
    items.iter().map(|s| s.to_string()).collect()
}

#[test]
fn limits_format_and_bogus_in_order() {
    let queries = requested_queries(&args(&["adapter_info", "limits", "r8unorm", "bogus"]));
    assert_eq!(
        queries,
        vec![Query::Limits, Query::Texture(TextureFormat::R8Unorm), Query::Unrecognized]
    );
}

#[test]
fn all_asks_for_every_query() {
    let queries = requested_queries(&args(&["adapter_info", "all", "bogus"]));
    assert_eq!(
        queries,
        vec![
            Query::Features,
            Query::Limits,
            Query::Downlevel,
            Query::Texture(TextureFormat::Rgba8Unorm),
        ]
    );
}

#[test]
fn no_options_no_queries() {
    assert_eq!(requested_queries(&args(&["adapter_info"])), vec![]);
    assert_eq!(requested_queries(&args(&[])), vec![]);
}

#[test]
fn help_only_as_first_option() {
    assert!(is_help_request(&args(&["adapter_info", "help"])));
    assert!(is_help_request(&args(&["adapter_info", "help", "limits"])));
    assert!(!is_help_request(&args(&["adapter_info", "limits", "help"])));
    assert!(!is_help_request(&args(&["adapter_info"])));
    assert!(!is_help_request(&args(&["help"])));
    assert!(!is_help_request(&args(&["adapter_info", "HELP"])));
}

#[test]
fn keywords_match_exactly() {
    assert_eq!(classify_option("features"), Query::Features);
    assert_eq!(classify_option("limits"), Query::Limits);
    assert_eq!(classify_option("downlevel"), Query::Downlevel);
    assert_eq!(classify_option("LIMITS"), Query::Unrecognized);
    assert_eq!(classify_option(" features"), Query::Unrecognized);
    assert_eq!(classify_option("texture"), Query::Unrecognized);
    assert_eq!(classify_option("Bc7RgbaUnormSrgb"), Query::Texture(TextureFormat::Bc7RgbaUnormSrgb));
}
