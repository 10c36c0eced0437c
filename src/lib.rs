//! Six linked-list containers, each built under a different ownership
//! strategy, with an exclusive cursor over a doubly-ended list that can walk,
//! edit, split and splice in place.
pub mod first;
pub mod second;
pub mod third;
pub mod fourth;
pub mod fifth;
pub mod sixth;
