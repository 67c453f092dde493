pub mod ieee802154;
