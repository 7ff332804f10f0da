use miner_toolbar::async_result::{AsyncResult, FetchError};

#[test]
fn a_slot_starts_loading() {
    let slot: AsyncResult<u64> = AsyncResult::loading();
    assert_eq!(slot, AsyncResult::Loading);
    assert!(slot.is_loading());
    assert!(!slot.is_ready());
    assert!(!slot.is_error());
    assert_eq!(slot.get(), None);
    assert_eq!(slot.error(), None);
}

#[test]
fn a_successful_fetch_gives_the_value() {
    let slot = AsyncResult::from_fetch(Ok(7u64));
    assert_eq!(slot, AsyncResult::Ready(7));
    assert!(slot.is_ready());
    assert!(!slot.is_loading());
    assert!(!slot.is_error());
    assert_eq!(slot.get(), Some(&7));
    assert_eq!(slot.error(), None);
}

#[test]
fn a_failed_fetch_gives_its_cause() {
    let network: AsyncResult<u64> = AsyncResult::from_fetch(Err(FetchError::Network));
    assert_eq!(network, AsyncResult::Error(FetchError::Network));
    assert!(network.is_error());
    assert!(!network.is_ready());
    assert_eq!(network.get(), None);
    assert_eq!(network.error(), Some(FetchError::Network));
    let decode: AsyncResult<u64> = AsyncResult::from_fetch(Err(FetchError::Decode));
    assert_eq!(decode.error(), Some(FetchError::Decode));
    assert_ne!(network, decode);
}
