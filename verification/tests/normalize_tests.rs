use normalizer::engine::{normalize, Domain};

#[test]
fn test_transaction_path_collapses_high_cardinality_segments() {
    let out = normalize(
        Domain::TransactionSegment,
        "/v1/users/3c1b2bdc-2816-4d0a-9bb2-ed2bdb5a1ddb/orders/42/",
    );
    assert_eq!(out, "/v1/users/*int*/orders/*int*/");
}

#[test]
fn test_transaction_uuid_segment_at_start() {
    let out = normalize(Domain::TransactionSegment, "3c1b2bdc-2816-4d0a-9bb2-ed2bdb5a1ddb");
    assert_eq!(out, "*uuid*");
}

#[test]
fn test_transaction_sha1_segment() {
    let out = normalize(
        Domain::TransactionSegment,
        "da39a3ee5e6b4b0d3255bfef95601890afd80709/meta",
    );
    assert_eq!(out, "*sha1*/meta");
}

#[test]
fn test_transaction_md5_segment() {
    let out = normalize(Domain::TransactionSegment, "d41d8cd98f00b204e9800998ecf8427e");
    assert_eq!(out, "*md5*");
}

#[test]
fn test_transaction_iso_timestamp_segment() {
    let out = normalize(Domain::TransactionSegment, "2018-02-08T12:52:12Z sync");
    assert_eq!(out, "*date*");
}

#[test]
fn test_transaction_mail_style_date_segment() {
    let out = normalize(Domain::TransactionSegment, "Sat, 14 Jan 2023 22:04:30 GMT");
    assert_eq!(out, "*date*");
}

#[test]
fn test_transaction_weekday_date_segment() {
    let out = normalize(Domain::TransactionSegment, "Mon Jan  9 01:23:45 2023");
    assert_eq!(out, "*date*");
}

#[test]
fn test_transaction_hex_literal_segment() {
    let out = normalize(Domain::TransactionSegment, "0x2A jobs");
    assert_eq!(out, "*hex*");
}

#[test]
fn test_transaction_clean_path_unchanged() {
    let out = normalize(Domain::TransactionSegment, "/api/v1/users/list");
    assert_eq!(out, "/api/v1/users/list");
}

#[test]
fn test_transaction_percent_escapes_in_segment() {
    let out = normalize(Domain::TransactionSegment, "/a/b%2Fc42");
    assert_eq!(out, "/a/*int*");
}

#[test]
fn test_sql_in_list_and_quoted_string() {
    let out = normalize(
        Domain::SqlToken,
        "SELECT * FROM t WHERE id IN (1, 2, 3) AND name = 'bob'",
    );
    assert_eq!(out, "SELECT * FROM t WHERE id IN (%s) AND name = *str*");
}

#[test]
fn test_sql_savepoint_identifier() {
    let out = normalize(Domain::SqlToken, "SAVEPOINT sp_1");
    assert_eq!(out, "SAVEPOINT *savepoint*");
}

#[test]
fn test_sql_numbers_and_negatives() {
    let out = normalize(Domain::SqlToken, "LIMIT 10 OFFSET -5.5");
    assert_eq!(out, "LIMIT *num* OFFSET *num*");
}

#[test]
fn test_sql_boolean_literal() {
    let out = normalize(Domain::SqlToken, "WHERE active = true AND truec = x");
    assert_eq!(out, "WHERE active = *bool* AND truec = x");
}

#[test]
fn test_sql_doubled_quote_splits_lazily() {
    let out = normalize(Domain::SqlToken, "WHERE a = 'it''s'");
    assert_eq!(out, "WHERE a = *str**str*");
}

#[test]
fn test_sql_number_glued_to_letters_untouched() {
    let out = normalize(Domain::SqlToken, "FROM t2abc");
    assert_eq!(out, "FROM t2abc");
}

#[test]
fn test_cache_first_segment_never_scrubbed() {
    let out = normalize(Domain::CacheToken, "deadbeef:cafe1234");
    assert_eq!(out, "deadbeef:*token*");
}

#[test]
fn test_cache_brace_segments() {
    let out = normalize(Domain::CacheToken, "app:{user}:{id}");
    assert_eq!(out, "app:*seg*:*seg*");
}

#[test]
fn test_cache_separator_is_preserved() {
    let out = normalize(Domain::CacheToken, "keys-0a1b2c3d item");
    assert_eq!(out, "keys-*token* item");
}

#[test]
fn test_resource_uuid_token() {
    let out = normalize(
        Domain::ResourceToken,
        "/assets/3c1b2bdc-2816-4d0a-9bb2-ed2bdb5a1ddb/main.css",
    );
    assert_eq!(out, "/assets/*uuid*/main.css");
}

#[test]
fn test_resource_chunk_identifier() {
    let out = normalize(Domain::ResourceToken, "static/123.abcdef12.chunk");
    assert_eq!(out, "static/*chunk*");
}

#[test]
fn test_resource_trailing_hash_keeps_extension() {
    let out = normalize(Domain::ResourceToken, "main-a1b2c3d4e5f6a7b8.js");
    assert_eq!(out, "main-*hash*.js");
}

#[test]
fn test_resource_version_marker() {
    let out = normalize(Domain::ResourceToken, "app/v2.3.1/bundle.css");
    assert_eq!(out, "app/*ver*/bundle.css");
}

#[test]
fn test_resource_long_hex_run() {
    let out = normalize(Domain::ResourceToken, "cdn/0123456789abcdef0123/x");
    assert_eq!(out, "cdn/*longhex*/x");
}

#[test]
fn test_resource_numeric_file_name_anchored_to_end() {
    let out = normalize(Domain::ResourceToken, "/images/1234.png");
    assert_eq!(out, "/images*digits*");
    let not_at_end = normalize(Domain::ResourceToken, "/images/1234.png?q=1");
    assert_eq!(not_at_end, "/images/1234.png?q=1");
}

#[test]
fn test_empty_input_yields_empty_output() {
    assert_eq!(normalize(Domain::TransactionSegment, ""), "");
    assert_eq!(normalize(Domain::SqlToken, ""), "");
    assert_eq!(normalize(Domain::CacheToken, ""), "");
    assert_eq!(normalize(Domain::ResourceToken, ""), "");
}

#[test]
fn test_normalization_is_idempotent_on_examples() {
    let cases = vec![
        (Domain::TransactionSegment, "/v1/users/3c1b2bdc-2816-4d0a-9bb2-ed2bdb5a1ddb/orders/42/"),
        (Domain::SqlToken, "SELECT * FROM t WHERE id IN (1, 2, 3) AND name = 'bob'"),
        (Domain::CacheToken, "deadbeef:cafe1234:{seg}"),
        (Domain::ResourceToken, "main-a1b2c3d4e5f6a7b8.js"),
    ];
    for (d, input) in cases {
        let once = normalize(d, input);
        let twice = normalize(d, &once);
        assert_eq!(once, twice);
    }
}

#[test]
fn test_idempotence_across_rule_kinds() {
    let cases = vec![
        (Domain::TransactionSegment, "3c1b2bdc-2816-4d0a-9bb2-ed2bdb5a1ddb"),
        (Domain::TransactionSegment, "da39a3ee5e6b4b0d3255bfef95601890afd80709/meta"),
        (Domain::TransactionSegment, "d41d8cd98f00b204e9800998ecf8427e"),
        (Domain::TransactionSegment, "2018-02-08T12:52:12Z sync"),
        (Domain::TransactionSegment, "Sat, 14 Jan 2023 22:04:30 GMT"),
        (Domain::TransactionSegment, "Mon Jan  9 01:23:45 2023"),
        (Domain::TransactionSegment, "0x2A jobs"),
        (Domain::TransactionSegment, "42abc"),
        (Domain::TransactionSegment, "/a/b%2Fc42/x"),
        (Domain::SqlToken, "IN (%s, $1, ?, 7)"),
        (Domain::SqlToken, "SAVEPOINT \"sp one\""),
        (Domain::SqlToken, "SAVEPOINT sp_1"),
        (Domain::SqlToken, "x = 'a\\' rest"),
        (Domain::SqlToken, "y = 'it''s'"),
        (Domain::SqlToken, "LIMIT 10 OFFSET -5.5e3"),
        (Domain::SqlToken, "flag = FALSE"),
        (Domain::CacheToken, "deadbeef:cafe1234"),
        (Domain::CacheToken, "app:{user}:{id}"),
        (Domain::ResourceToken, "/assets/3c1b2bdc-2816-4d0a-9bb2-ed2bdb5a1ddb/main.css"),
        (Domain::ResourceToken, "static/123.abcdef12.chunk"),
        (Domain::ResourceToken, "main-a1b2c3d4e5f6a7b8.js"),
        (Domain::ResourceToken, "app/v2.3.1/bundle.css"),
        (Domain::ResourceToken, "cdn/0123456789abcdef0123/x"),
        (Domain::ResourceToken, "/images/1234.png"),
    ];
    for (d, input) in cases {
        let once = normalize(d, input);
        let twice = normalize(d, &once);
        assert_eq!(once, twice);
    }
}

#[test]
fn test_adjacent_brace_chain_keeps_earlier_segments_on_first_pass() {
    // A chain of adjacent brace segments is consumed whole, but only the last
    // segment is the replaced capture; the earlier ones stay verbatim and are
    // only scrubbed by a further pass, so a first-pass output is not always a
    // fixed point.
    let once = normalize(Domain::CacheToken, ":{a}{b}");
    assert_eq!(once, ":{a}*seg*");
    let twice = normalize(Domain::CacheToken, &once);
    assert_eq!(twice, ":*seg**seg*");
}

#[test]
fn test_output_length_stays_linear() {
    let input = "/1/22/333/4444/55555/666666/".repeat(40);
    let out = normalize(Domain::TransactionSegment, &input);
    assert!(out.chars().count() <= 12 * input.chars().count());
}
