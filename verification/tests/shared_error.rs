//! The shareable error wrapper around `anyhow::Error`.

use anyhow::Context;
use atomic_download::ArcAnyhowError;

#[test]
fn clones_share_the_one_error() {
    let shared = ArcAnyhowError::new(anyhow::Error::msg("failed to download"));
    let other = shared.clone();
    assert_eq!(format!("{}", shared.get()), "failed to download");
    assert_eq!(format!("{}", other.get()), "failed to download");
}

#[test]
fn context_chain_is_preserved() {
    let inner: Result<(), anyhow::Error> = Err(anyhow::Error::msg("connection reset"));
    let outer = inner.context("failed to get headers").unwrap_err();
    let shared = ArcAnyhowError::new(outer);
    assert_eq!(format!("{}", shared.get()), "failed to get headers");
    assert_eq!(format!("{:#}", shared.get()), "failed to get headers: connection reset");
}
