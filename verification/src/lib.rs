mod error;
mod eztime;
mod state;
mod transfer;
mod whitelist;

pub use error::ContractError;
pub use eztime::{
    calendar_of, civil_of, dec_digits, digit_char, display_of, display_string_of, EzTime,
    EzTimeStruct, lemma_calendar_display_agree, month_name, render_display, struct_of_civil,
    Timestamp, to_calendar, to_display_string, u32_dec,
};
pub use state::{Balance, Config, Cw20Coin, GenericBalance, NativeCoin, Nft};
pub use transfer::{
    bank_send_of, coin_of, cw20_transfer_of, expected_msgs, lemma_instruction_count,
    native_block_len, native_coins_of, native_part, nft_transfer_of, lemma_instruction_order,
    send_tokens_cosmos,
};
pub use whitelist::{
    cw20_ids, first_violation, generic_violation, is_balance_whitelisted,
    is_genericbalance_whitelisted, is_nft_whitelisted, lemma_class_violation,
    lemma_empty_class_no_op, lemma_native_whitelist_decides, native_ids, nft_ids, wl_contains,
};
