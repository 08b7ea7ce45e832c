use chain_indexer::asset_details::{AssetDetails, AssetLinks};
use chain_indexer::gemstone::{greeting, lib_version, GemstoneError};

fn links() -> AssetLinks {
    AssetLinks {
        homepage: Some("https://example.org".to_string()),
        explorer: None,
        twitter: Some("@example".to_string()),
        telegram: None,
        github: None,
        youtube: None,
        facebook: None,
        reddit: None,
        coingecko: Some("example".to_string()),
        coinmarketcap: None,
        discord: None,
    }
}

#[test]
fn details_from_links_allow_nothing() {
    let details = AssetDetails::from_links(links());
    assert_eq!(details.links, links());
    assert!(!details.is_buyable);
    assert!(!details.is_sellable);
    assert!(!details.is_swapable);
    assert!(!details.is_stakeable);
}

#[test]
fn version_of_the_library() {
    assert_eq!(lib_version(), "0.1.1");
}

#[test]
fn error_shows_its_message() {
    let error = GemstoneError::AnyError { msg: "bad input".to_string() };
    assert_eq!(error.to_string(), "bad input");
}

#[test]
fn greeting_names_who_is_greeted() {
    assert_eq!(greeting("world"), "Hello, world!");
    assert_eq!(greeting(""), "Hello, !");
}
