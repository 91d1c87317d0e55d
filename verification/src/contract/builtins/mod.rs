pub mod sudt;
pub mod t_nft;
