//! Core logic of an NFT collection whose tokens are minted by burning a
//! fungible token. Each minted token carries traits (length, hardness,
//! shininess) derived from the burned amount and from host-supplied random
//! draws. The host blockchain runtime owns accounts, vaults, resources and
//! the randomness oracle; this crate holds the decisions made on the plain
//! values that cross that boundary.

mod nft;
mod sampler;
mod text;
mod traits;

pub use nft::BurnError;
pub use nft::CLAMP_CEILING;
pub use nft::DSizeMeasure;
pub use nft::DSizeMeasureNft;
pub use nft::MintOutcome;
pub use nft::ResourceKind;
pub use nft::burn_error_message_spec;
pub use nft::check_burn;
pub use sampler::lemma_weight_bounds;
pub use sampler::lemma_weight_clamp_ceiling;
pub use sampler::lemma_weight_monotone;
pub use sampler::weight_hundredths;
pub use sampler::weight_hundredths_spec;
pub use text::bool_label;
pub use text::bool_label_spec;
pub use text::decimal_spec;
pub use text::decimal_string;
pub use text::digit_char_spec;
pub use text::token_name;
pub use text::token_name_spec;
pub use traits::Hardness;
pub use traits::hardness_from_roll;
pub use traits::hardness_label_spec;
pub use traits::hardness_spec;
pub use traits::is_shiny;
