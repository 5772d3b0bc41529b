//! Request-keyed caching for a weather widget: the canonical request
//! descriptor, its stable digest, the cache file names derived from it, the
//! freshness rule and the decisions of the fetch-or-serve-from-cache protocol.
mod cache;
mod fetch;
mod key;
mod location;
mod text;

pub use cache::{
    data_file_name, is_fresh_age, legacy_file_name, lemma_file_name_injective, lemma_fresh_iff_younger_than_ttl,
    lemma_file_names_distinct, lemma_fresh_monotone, lemma_legacy_file_is_never_a_request_file,
    lemma_shared_file_means_hash_collision, lemma_zero_ttl_never_fresh, lock_file_name_of,
    spec_legacy_file_name, tmp_file_name_of, Cache, MIN_TTL_SECS,
};
pub use fetch::{
    answer, begin, expected_trace, fetched_at_of, finish, freshness,
    lemma_done_is_final, lemma_fetch_time_is_file_time_only_when_file_holds_payload, lemma_network_payload_has_fetch_time, lemma_protocol,
    lemma_protocol_runs, lemma_step_state_matches_action, next, pending, served, step, trace,
    trace_from, FetchAction, FetchEvent, FetchState, Freshness, Outcome, Source,
};
pub use key::{
    canonical_of, digest_of, fnv1a, fnv1a_step, has_no_bar, lemma_canonical_injective,
    lemma_digest_equal_iff_hash_equal, lemma_digest_is_hash_of_all_bytes, lemma_fnv1a_rounds,
    lemma_same_fields_same_digest, CacheKey, FNV_OFFSET_BASIS,
    FNV_PRIME,
};
pub use location::{
    ascii_lowercase, is_ip_marker, lemma_ip_marker_is_auto_in_any_case,
    lemma_trimmed_cuts_only_white_space, is_white_space, location_lookup, matches_ip_marker, trim_end,
    trim_start, trimmed, LocationLookup,
};
pub use text::{
    append_decimal, append_hex, decimal, hex_char, hex_digits, is_decimal_char, is_hex_char,
    lemma_decimal_injective, lemma_decimal_shape, lemma_hex_digits_injective,
    lemma_hex_digits_shape, pow16, digit_value, digits_value, lemma_decimal_denotes,
    lemma_hex16_denotes, lemma_hex_digits_denote,
};
