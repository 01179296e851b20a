//! Keys, certificates and the TLS configurations that are made of them. The keys are
//! throwaway ones that nothing else uses.

use async_rustls::rustls::version::TLS12;
use async_rustls::rustls::{
    Certificate, ClientConfig, ClientConnection, OwnedTrustAnchor, ProtocolVersion, RootCertStore,
    ServerConfig, ServerConnection, ServerName,
};
use base64::Engine;
use std::sync::Arc;
use zenoh_link_tls::anchors::{
    anchors_from_items, collect_anchors, load_default_webpki_certs, load_trust_anchors,
    process_pem, TrustAnchor,
};
use zenoh_link_tls::client::{client_material, TlsClientConfig};
use zenoh_link_tls::config::Config;
use zenoh_link_tls::credentials::{
    base64_decode, key_from_file, load_tls_certificate, load_tls_key, FileRead, FileRole, Files,
    Load,
};
use zenoh_link_tls::error::{ErrorKind, TlsError};
use zenoh_link_tls::identity::{identity_from, load_identity, Identity, Side};
use zenoh_link_tls::pem::{certificates, choose_key, collect_items, private_key};
use zenoh_link_tls::server::{server_material, TlsServerConfig};

const CA: [&str; 7] = [
    "MIIBKDCBz6ADAgECAgID7zAKBggqhkjOPQQDAjASMRAwDgYDVQQDDAdUZXN0IENB",
    "MCAXDTIwMDEwMTAwMDAwMFoYDzIxMTkwMTAxMDAwMDAwWjASMRAwDgYDVQQDDAdU",
    "ZXN0IENBMFkwEwYHKoZIzj0CAQYIKoZIzj0DAQcDQgAE+jzcmrsK08nuTcXW5doW",
    "B8GD4SiNz82AgxZ2zkxvEhLqE1IEN6Wh7TjVubhXn5HEXQY14No8UXY3R2KmDGtJ",
    "wKMTMBEwDwYDVR0TAQH/BAUwAwEB/zAKBggqhkjOPQQDAgNIADBFAiEApl4le72v",
    "kOvDwzV0lIgb7e8nvOU5rqyhNWfdEI598JwCICnRKH9/LFalC1eW0J+DMe4l5Px6",
    "sawmkihp91g65dyE",
];

const BOUND_CA: [&str; 7] = [
    "MIIBSjCB8KADAgECAgID8DAKBggqhkjOPQQDAjATMREwDwYDVQQDDAhCb3VuZCBD",
    "QTAgFw0yMDAxMDEwMDAwMDBaGA8yMTE5MDEwMTAwMDAwMFowEzERMA8GA1UEAwwI",
    "Qm91bmQgQ0EwWTATBgcqhkjOPQIBBggqhkjOPQMBBwNCAATxUJl5sjAMUTNLKR64",
    "I42LoM4YoQ436d7X5/ewo9MoWLao+tYpsPdOtKCanr/TE2ZSo+T7XcVZPgWKdkWQ",
    "uFyYozIwMDAPBgNVHRMBAf8EBTADAQH/MB0GA1UdHgEB/wQTMBGgDzANggtleGFt",
    "cGxlLm9yZzAKBggqhkjOPQQDAgNJADBGAiEA128k8UCMHOFxUktHnaPAArscqcyf",
    "FXH7DHEIom4aMJgCIQClMoZ1ZnK4tuiaNFng0DjZqa8x+5+mKDVOyhFrNIydRQ==",
];

const SERVER_CERT: [&str; 12] = [
    "MIICGzCCAcGgAwIBAgICA+4wCgYIKoZIzj0EAwIwEjEQMA4GA1UEAwwHVGVzdCBD",
    "QTAgFw0yMDAxMDEwMDAwMDBaGA8yMTE5MDEwMTAwMDAwMFowETEPMA0GA1UEAwwG",
    "c2VydmVyMIIBIjANBgkqhkiG9w0BAQEFAAOCAQ8AMIIBCgKCAQEApiQwXNJ8MqnC",
    "IVOMecrqlt/kIQz8vW4WsZMYxTD4qi7nyvbysMPo/4AFy9jSbqPo3nHCLHswESFV",
    "Bfzn2TUT7X2v8hlseajUqbpewkWuiop+6zkegi0CBZrILA0aOObJSpPljREzyGRa",
    "5orX4eMN1hRh+QfpAFRrFU84fBtfZgv0mJk75ZNLVCNtyVUC/wNqn/mh0BJsnpLa",
    "i5HhnGBG/ReqeKofubWYNqWfIRuJ3mxrtJAtompqx00/gFPEpR6ETg0zMcpMjFyi",
    "vrEpmMPamKteorH+O7QXFrvAymc+XClOHielZpzk9ANXxXY1GCDeqUBbqSHOO1Qb",
    "Bq+y1zw0ZQIDAQABozswOTAMBgNVHRMBAf8EAjAAMBQGA1UdEQQNMAuCCWxvY2Fs",
    "aG9zdDATBgNVHSUEDDAKBggrBgEFBQcDATAKBggqhkjOPQQDAgNIADBFAiEA7XrG",
    "gjWZ2fMbFFZZiCTL8p8g5ay5uemdzYZeqhHyhuICIFIG/S1/4WPXxKRIrEX9CGxe",
    "j5zyLUox/yJBpck1cJ4L",
];

const CLIENT_CERT: [&str; 8] = [
    "MIIBUjCB+aADAgECAgID7jAKBggqhkjOPQQDAjASMRAwDgYDVQQDDAdUZXN0IENB",
    "MCAXDTIwMDEwMTAwMDAwMFoYDzIxMTkwMTAxMDAwMDAwWjARMQ8wDQYDVQQDDAZj",
    "bGllbnQwWTATBgcqhkjOPQIBBggqhkjOPQMBBwNCAASfSz2onUKeIEl9wrSNL4SJ",
    "Q8k7FTgODs3GWfy5xUKzuMe53sRZ6vWJRus+7T1HkceR0YpQzhEECnexMQ4Kt6qw",
    "oz4wPDAMBgNVHRMBAf8EAjAAMBcGA1UdEQQQMA6CDGNsaWVudC5sb2NhbDATBgNV",
    "HSUEDDAKBggrBgEFBQcDAjAKBggqhkjOPQQDAgNIADBFAiEAkQ60CRIRhaWZs5c0",
    "yLwi5Tdwt8oDiwT9jpSeY6qX9ZECIF6nRu49KHA/y1e+uIaHyJmvE/osSmTsGcoU",
    "bl9X5Oj/",
];

const SERVER_PKCS1: [&str; 25] = [
    "MIIEogIBAAKCAQEApiQwXNJ8MqnCIVOMecrqlt/kIQz8vW4WsZMYxTD4qi7nyvby",
    "sMPo/4AFy9jSbqPo3nHCLHswESFVBfzn2TUT7X2v8hlseajUqbpewkWuiop+6zke",
    "gi0CBZrILA0aOObJSpPljREzyGRa5orX4eMN1hRh+QfpAFRrFU84fBtfZgv0mJk7",
    "5ZNLVCNtyVUC/wNqn/mh0BJsnpLai5HhnGBG/ReqeKofubWYNqWfIRuJ3mxrtJAt",
    "ompqx00/gFPEpR6ETg0zMcpMjFyivrEpmMPamKteorH+O7QXFrvAymc+XClOHiel",
    "Zpzk9ANXxXY1GCDeqUBbqSHOO1QbBq+y1zw0ZQIDAQABAoIBACc+sajfdISAKpH2",
    "Ox7S4p6ghPIUsAfsHxKzqTx9QKPsoAbG1hWQtXNTEatxDGYjtECFVSVuNPC686tO",
    "LhMWEV6+W4cf38qOKavtEPCphp0FsYzNSYpc6NcblJCpSKorw90ouebcayO5JurB",
    "3dRnLq/E0U7CwlR4XHIkbDaOvbZsF3zR39G+nmlNkNI/yJYcXxuSqMzxouq0T5OD",
    "MOO8SeFIPQvSruzgLk/2zBxrLRk+7pA/87XzWyiIU1xx0j43acFi6pzh/TKy9pWp",
    "177GxaURej0uloM87TMaE4gwYnOAzU9OQ9hCmUuhAtC/mY7kmxm744CEOfefcE2R",
    "WfLCdekCgYEA2O9B/uA7zQIKysl0hrQiyITP/h4y/dd5bgnTKM1HDTjIg1pO/78Z",
    "o4Ezct+VsLBL5xmBn5mUCOQKKE3qNjBREtNIfHMSAIenj6OkbxWPWgJVmYemDnCh",
    "6La3lXTR1pp0774BspoSWFuKrxZTzidMXPDSwivc2wY9YiYqkOyh2n0CgYEAxA9Z",
    "d/BlHOmp1shz2LJuR0/9HuU5bGYqduHigCfTw/7jbGPAnmWKs26Y0mvLSRj1p2qf",
    "9U/OvIsou6EBrJXfjjcgYGkO7EWpInU2hKrLKCGRTyv5imKQfk34YFzucMZvGpG/",
    "rMhGkwZLZiPyWHrDjGjusooxbtJKwHvZvOmqfgkCgYBpANZm8k6/2p8yrPR0RzkW",
    "6gJrNF7mM6gZNTQ6abJcmgGkYtAeRne4hs9KaSLhlVQIFnaBtCrNauPnwl79v8Fe",
    "ZVqOsnwiOYdHpaPwCPWMUdjxKZGdJ7OXGuods5/mSnkTmlrkAmOi1Rx5x0rlXGxA",
    "CGlbhzOt6IVJvsOXxpJJWQKBgCSHw6DQXtajRuzpDoS6wkdxRPVjum5THuhlsCE2",
    "yoNDU7aXY4Vf4BcMrVbPlOH6z5KxEDrR8vA4cY98MWapyiyiYtrz2D73v8rW0iCn",
    "/hBtKLj6tZUuRkPyXSv/RMIohv0JWRBlhJjSXGwcmIQZ46OezZLgotNGRX1V1j0X",
    "wJeZAoGAA51CB+aY3uDwj9gC2I9WjzGkzZZgZMr+Dya5taN/u6+gu1DPe4h/Kivj",
    "76v0N9g609jqG1ZqcESSaP8hPybrAnIfqFzY6ZWRa1CF/fRvMTw04nNBXB9khztV",
    "MZ1N8vJtuIpdv6WpqwYdg+01FmSh+lCOvd6dYy2BjCXnEFO62bA=",
];

const SERVER_PKCS8: [&str; 26] = [
    "MIIEvAIBADANBgkqhkiG9w0BAQEFAASCBKYwggSiAgEAAoIBAQCmJDBc0nwyqcIh",
    "U4x5yuqW3+QhDPy9bhaxkxjFMPiqLufK9vKww+j/gAXL2NJuo+jeccIsezARIVUF",
    "/OfZNRPtfa/yGWx5qNSpul7CRa6Kin7rOR6CLQIFmsgsDRo45slKk+WNETPIZFrm",
    "itfh4w3WFGH5B+kAVGsVTzh8G19mC/SYmTvlk0tUI23JVQL/A2qf+aHQEmyektqL",
    "keGcYEb9F6p4qh+5tZg2pZ8hG4nebGu0kC2iamrHTT+AU8SlHoRODTMxykyMXKK+",
    "sSmYw9qYq16isf47tBcWu8DKZz5cKU4eJ6VmnOT0A1fFdjUYIN6pQFupIc47VBsG",
    "r7LXPDRlAgMBAAECggEAJz6xqN90hIAqkfY7HtLinqCE8hSwB+wfErOpPH1Ao+yg",
    "BsbWFZC1c1MRq3EMZiO0QIVVJW408Lrzq04uExYRXr5bhx/fyo4pq+0Q8KmGnQWx",
    "jM1Jilzo1xuUkKlIqivD3Si55txrI7km6sHd1Gcur8TRTsLCVHhcciRsNo69tmwX",
    "fNHf0b6eaU2Q0j/IlhxfG5KozPGi6rRPk4Mw47xJ4Ug9C9Ku7OAuT/bMHGstGT7u",
    "kD/ztfNbKIhTXHHSPjdpwWLqnOH9MrL2lanXvsbFpRF6PS6WgzztMxoTiDBic4DN",
    "T05D2EKZS6EC0L+ZjuSbGbvjgIQ5959wTZFZ8sJ16QKBgQDY70H+4DvNAgrKyXSG",
    "tCLIhM/+HjL913luCdMozUcNOMiDWk7/vxmjgTNy35WwsEvnGYGfmZQI5AooTeo2",
    "MFES00h8cxIAh6ePo6RvFY9aAlWZh6YOcKHotreVdNHWmnTvvgGymhJYW4qvFlPO",
    "J0xc8NLCK9zbBj1iJiqQ7KHafQKBgQDED1l38GUc6anWyHPYsm5HT/0e5TlsZip2",
    "4eKAJ9PD/uNsY8CeZYqzbpjSa8tJGPWnap/1T868iyi7oQGsld+ONyBgaQ7sRaki",
    "dTaEqssoIZFPK/mKYpB+TfhgXO5wxm8akb+syEaTBktmI/JYesOMaO6yijFu0krA",
    "e9m86ap+CQKBgGkA1mbyTr/anzKs9HRHORbqAms0XuYzqBk1NDppslyaAaRi0B5G",
    "d7iGz0ppIuGVVAgWdoG0Ks1q4+fCXv2/wV5lWo6yfCI5h0elo/AI9YxR2PEpkZ0n",
    "s5ca6h2zn+ZKeROaWuQCY6LVHHnHSuVcbEAIaVuHM63ohUm+w5fGkklZAoGAJIfD",
    "oNBe1qNG7OkOhLrCR3FE9WO6blMe6GWwITbKg0NTtpdjhV/gFwytVs+U4frPkrEQ",
    "OtHy8Dhxj3wxZqnKLKJi2vPYPve/ytbSIKf+EG0ouPq1lS5GQ/JdK/9EwiiG/QlZ",
    "EGWEmNJcbByYhBnjo57NkuCi00ZFfVXWPRfAl5kCgYADnUIH5pje4PCP2ALYj1aP",
    "MaTNlmBkyv4PJrm1o3+7r6C7UM97iH8qK+Pvq/Q32DrT2OobVmpwRJJo/yE/JusC",
    "ch+oXNjplZFrUIX99G8xPDTic0FcH2SHO1UxnU3y8m24il2/pamrBh2D7TUWZKH6",
    "UI693p1jLYGMJecQU7rZsA==",
];

const CLIENT_SEC1: [&str; 3] = [
    "MHcCAQEEIFhDWRB6qRdIQovbRM/NUGmL5cJtznxuv+gP1u7wufDsoAoGCCqGSM49",
    "AwEHoUQDQgAEn0s9qJ1CniBJfcK0jS+EiUPJOxU4Dg7Nxln8ucVCs7jHud7EWer1",
    "iUbrPu09R5HHkdGKUM4RBAp3sTEOCreqsA==",
];

const CLIENT_PKCS8: [&str; 3] = [
    "MIGHAgEAMBMGByqGSM49AgEGCCqGSM49AwEHBG0wawIBAQQgWENZEHqpF0hCi9tE",
    "z81QaYvlwm3OfG6/6A/W7vC58OyhRANCAASfSz2onUKeIEl9wrSNL4SJQ8k7FTgO",
    "Ds3GWfy5xUKzuMe53sRZ6vWJRus+7T1HkceR0YpQzhEECnexMQ4Kt6qw",
];

const ED25519_PKCS8: [&str; 1] = [
    "MC4CAQAwBQYDK2VwBCIEIDcgHy0BKRUdDDrA/b8cHBqMAGSAEZvXnsyd8mG6V74A",
];

const CERT: &str = "CERTIFICATE";
const PKCS1: &str = "RSA PRIVATE KEY";
const PKCS8: &str = "PRIVATE KEY";
const SEC1: &str = "EC PRIVATE KEY";

fn der(lines: &[&str]) -> Vec<u8> {
    base64::engine::general_purpose::STANDARD.decode(lines.concat()).unwrap()
}

fn pem(kind: &str, lines: &[&str]) -> String {
    format!("-----BEGIN {kind}-----\n{}\n-----END {kind}-----\n", lines.join("\n"))
}

fn encode(text: &str) -> String {
    base64::engine::general_purpose::STANDARD.encode(text)
}

fn config(entries: &[(&str, &str)]) -> Config {
    Config { entries: entries.iter().map(|(k, v)| (k.to_string(), v.to_string())).collect() }
}

fn kind_of<T>(r: Result<T, TlsError>) -> ErrorKind {
    match r {
        Ok(_) => panic!("an error was expected"),
        Err(e) => e.kind,
    }
}

fn message_of<T>(r: Result<T, TlsError>) -> String {
    match r {
        Ok(_) => panic!("an error was expected"),
        Err(e) => e.message(),
    }
}

fn done<T>(r: Result<Load<T>, TlsError>) -> T {
    match r {
        Ok(Load::Done(value)) => value,
        Ok(Load::Read { path, .. }) => panic!("asked for {path}"),
        Err(e) => panic!("{}", e.message()),
    }
}

fn asked<T>(r: Result<Load<T>, TlsError>) -> (FileRole, String) {
    match r {
        Ok(Load::Read { file, path }) => (file, path),
        Ok(Load::Done(_)) => panic!("nothing was asked for"),
        Err(e) => panic!("{}", e.message()),
    }
}

fn cut_off(before: &str, why: &str) -> FileRead {
    FileRead::ReadFailed { before: before.as_bytes().to_vec(), why: why.to_string() }
}

fn contents(text: &str) -> FileRead {
    FileRead::Contents(text.as_bytes().to_vec())
}

// ---------------------------------------------------------------- collecting and choosing

#[test]
fn collecting_gives_all_values() {
    let items: Vec<Result<Vec<u8>, String>> = vec![Ok(vec![1]), Ok(vec![2, 3])];
    assert_eq!(collect_items(items), Ok(vec![vec![1], vec![2, 3]]));
    let none: Vec<Result<Vec<u8>, String>> = vec![];
    assert_eq!(collect_items(none), Ok(vec![]));
}

#[test]
fn collecting_gives_the_first_error() {
    let items: Vec<Result<Vec<u8>, String>> =
        vec![Ok(vec![1]), Err("one".to_string()), Ok(vec![2]), Err("two".to_string())];
    assert_eq!(collect_items(items), Err("one".to_string()));
}

#[test]
fn keys_are_chosen_by_kind() {
    let rsa = || vec![Ok(vec![1u8]), Ok(vec![2u8])];
    let pkcs8 = || vec![Ok(vec![3u8])];
    let ec = || vec![Ok(vec![4u8])];
    let bad = || vec![Err("bad".to_string())];
    assert_eq!(choose_key(rsa(), pkcs8(), ec()), Ok(Some(vec![1])));
    assert_eq!(choose_key(vec![], pkcs8(), ec()), Ok(Some(vec![3])));
    assert_eq!(choose_key(vec![], vec![], ec()), Ok(Some(vec![4])));
    assert_eq!(choose_key(vec![], vec![], vec![]), Ok(None));
    assert_eq!(choose_key(rsa(), bad(), bad()), Ok(Some(vec![1])));
    assert_eq!(choose_key(vec![], bad(), ec()), Err("bad".to_string()));
    assert_eq!(choose_key(bad(), pkcs8(), ec()), Err("bad".to_string()));
    assert_eq!(choose_key(vec![], vec![], bad()), Err("bad".to_string()));
    assert_eq!(
        choose_key(vec![Ok(vec![1]), Err("late".to_string())], pkcs8(), ec()),
        Err("late".to_string())
    );
}

#[test]
fn keys_of_each_kind_are_read_from_pem() {
    assert_eq!(private_key(pem(PKCS1, &SERVER_PKCS1).as_bytes()), Ok(Some(der(&SERVER_PKCS1))));
    assert_eq!(private_key(pem(PKCS8, &SERVER_PKCS8).as_bytes()), Ok(Some(der(&SERVER_PKCS8))));
    assert_eq!(private_key(pem(SEC1, &CLIENT_SEC1).as_bytes()), Ok(Some(der(&CLIENT_SEC1))));
    assert_eq!(private_key(b""), Ok(None));
    assert_eq!(private_key(pem(CERT, &CA).as_bytes()), Ok(None));
}

#[test]
fn an_rsa_key_comes_before_one_in_pkcs8_before_an_ec_key() {
    let ec = pem(SEC1, &CLIENT_SEC1);
    let pkcs8 = pem(PKCS8, &CLIENT_PKCS8);
    let rsa = pem(PKCS1, &SERVER_PKCS1);
    let all = format!("{ec}{pkcs8}{rsa}");
    assert_eq!(private_key(all.as_bytes()), Ok(Some(der(&SERVER_PKCS1))));
    let two = format!("{ec}{pkcs8}");
    assert_eq!(private_key(two.as_bytes()), Ok(Some(der(&CLIENT_PKCS8))));
}

#[test]
fn certificates_are_read_in_order() {
    let both = format!("{}{}", pem(CERT, &SERVER_CERT), pem(CERT, &CA));
    assert_eq!(certificates(both.as_bytes()), Ok(vec![der(&SERVER_CERT), der(&CA)]));
    assert_eq!(certificates(b"no pem"), Ok(vec![]));
}

#[test]
fn malformed_pem_is_an_error() {
    let open = "-----BEGIN CERTIFICATE-----\nAAAA\n";
    assert_eq!(
        certificates(open.as_bytes()),
        Err("section end \"CERTIFICATE\" missing".to_string())
    );
    assert_eq!(
        certificates(b"-----BEGIN CERTIFICATE\n"),
        Err("illegal section start: \"-----BEGIN CERTIFICATE\\n\"".to_string())
    );
}

// ---------------------------------------------------------------- sources of keys and certificates

#[test]
fn base64_values_are_decoded() {
    assert_eq!(base64_decode("aGVsbG8=").unwrap(), b"hello".to_vec());
    let e = base64_decode("aGVsbG8").unwrap_err();
    assert_eq!(e.kind, ErrorKind::Base64);
    assert_eq!(e.message(), "Unable to perform base64 decoding: InvalidPadding");
}

#[test]
fn a_key_is_taken_raw_then_in_base64_then_from_its_file() {
    let all = config(&[("raw", "key"), ("b64", "aGVsbG8="), ("file", "/k")]);
    assert_eq!(done(load_tls_key(&all, "raw", "file", "b64", &None)), b"key".to_vec());
    let two = config(&[("b64", "aGVsbG8="), ("file", "/k")]);
    assert_eq!(done(load_tls_key(&two, "raw", "file", "b64", &None)), b"hello".to_vec());
    let one = config(&[("file", "/k")]);
    assert_eq!(
        asked(load_tls_key(&one, "raw", "file", "b64", &None)),
        (FileRole::PrivateKey, "/k".to_string())
    );
    assert_eq!(
        done(load_tls_key(&one, "raw", "file", "b64", &Some(contents("pem")))),
        b"pem".to_vec()
    );
}

#[test]
fn text_is_taken_as_utf8_bytes() {
    let c = config(&[("raw", "\u{e9}")]);
    assert_eq!(done(load_tls_key(&c, "raw", "file", "b64", &None)), vec![0xc3, 0xa9]);
    assert_eq!(done(load_tls_certificate(&c, "raw", "file", "b64", &None)), vec![0xc3, 0xa9]);
}

#[test]
fn keys_that_cannot_be_loaded() {
    let none = config(&[]);
    assert_eq!(
        message_of(load_tls_key(&none, "raw", "file", "b64", &None)),
        "Missing TLS private key."
    );
    let file = config(&[("file", "/k")]);
    assert_eq!(
        message_of(load_tls_key(&file, "raw", "file", "b64", &Some(contents("")))),
        "Empty TLS key."
    );
    let gone = Some(FileRead::OpenFailed("gone".to_string()));
    assert_eq!(
        message_of(load_tls_key(&file, "raw", "file", "b64", &gone)),
        "Invalid TLS private key file: gone"
    );
    let cut = Some(cut_off("", "cut"));
    assert_eq!(
        message_of(load_tls_key(&file, "raw", "file", "b64", &cut)),
        "Invalid TLS private key file: cut"
    );
    let b64 = config(&[("b64", "?")]);
    assert_eq!(kind_of(load_tls_key(&b64, "raw", "file", "b64", &None)), ErrorKind::Base64);
    assert_eq!(kind_of(key_from_file(&contents(""))), ErrorKind::EmptyKey);
    assert_eq!(key_from_file(&contents("k")).unwrap(), b"k".to_vec());
}

#[test]
fn an_empty_raw_key_is_taken_as_it_is() {
    let c = config(&[("raw", "")]);
    assert_eq!(done(load_tls_key(&c, "raw", "file", "b64", &None)), Vec::<u8>::new());
}

#[test]
fn certificates_that_cannot_be_loaded() {
    let none = config(&[]);
    assert_eq!(
        message_of(load_tls_certificate(&none, "raw", "file", "b64", &None)),
        "Missing tls certificates."
    );
    let file = config(&[("file", "/c")]);
    assert_eq!(
        asked(load_tls_certificate(&file, "raw", "file", "b64", &None)),
        (FileRole::Certificate, "/c".to_string())
    );
    let gone = Some(FileRead::OpenFailed("gone".to_string()));
    assert_eq!(
        message_of(load_tls_certificate(&file, "raw", "file", "b64", &gone)),
        "Invalid TLS certificate file: gone"
    );
    let empty = Some(contents(""));
    assert_eq!(
        done(load_tls_certificate(&file, "raw", "file", "b64", &empty)),
        Vec::<u8>::new()
    );
    let b64 = config(&[("b64", "aGVsbG8="), ("file", "/c")]);
    assert_eq!(
        done(load_tls_certificate(&b64, "raw", "file", "b64", &None)),
        b"hello".to_vec()
    );
}

#[test]
fn each_side_has_its_own_names() {
    let c = config(&[
        ("server_private_key_raw", "sk"),
        ("server_certificate_raw", "sc"),
        ("client_private_key_raw", "ck"),
        ("client_certificate_raw", "cc"),
    ]);
    assert_eq!(done(TlsServerConfig::load_tls_private_key(&c, &None)), b"sk".to_vec());
    assert_eq!(done(TlsServerConfig::load_tls_certificate(&c, &None)), b"sc".to_vec());
    assert_eq!(done(TlsClientConfig::load_tls_private_key(&c, &None)), b"ck".to_vec());
    assert_eq!(done(TlsClientConfig::load_tls_certificate(&c, &None)), b"cc".to_vec());
}

// ---------------------------------------------------------------- trust anchors

#[test]
fn a_root_certificate_gives_its_anchor() {
    let anchors = process_pem(pem(CERT, &CA).as_bytes()).unwrap();
    assert_eq!(anchors.len(), 1);
    assert_eq!(
        anchors[0].subject,
        b"\x31\x10\x30\x0e\x06\x03\x55\x04\x03\x0c\x07Test CA".to_vec()
    );
    // The public key is an EC key on P-256, without the outer sequence.
    assert_eq!(anchors[0].spki.len(), 0x59);
    assert_eq!(anchors[0].spki[..4], [0x30, 0x13, 0x06, 0x07]);
    assert_eq!(anchors[0].name_constraints, None);
}

#[test]
fn name_constraints_are_kept() {
    let anchors = process_pem(pem(CERT, &BOUND_CA).as_bytes()).unwrap();
    assert_eq!(
        anchors[0].name_constraints,
        Some(b"\xa0\x0f\x30\x0d\x82\x0bexample.org".to_vec())
    );
}

#[test]
fn malformed_roots_are_errors() {
    let open = "-----BEGIN CERTIFICATE-----\nAAAA\n";
    assert_eq!(
        message_of(process_pem(open.as_bytes())),
        "Error processing PEM certificates: section end \"CERTIFICATE\" missing."
    );
    let junk = pem(CERT, &["AAAA"]);
    assert_eq!(
        message_of(process_pem(junk.as_bytes())),
        "Error processing trust anchor: TrailingData(SignedData)."
    );
    // A malformed section comes before a certificate without an anchor.
    let both = format!("{junk}{open}");
    assert_eq!(kind_of(process_pem(both.as_bytes())), ErrorKind::PemCertificates);
}

#[test]
fn joined_texts_give_joined_anchors() {
    let first = pem(CERT, &CA);
    let second = pem(CERT, &BOUND_CA);
    assert!(first.ends_with('\n'));
    let subjects = |text: &str| -> Vec<Vec<u8>> {
        process_pem(text.as_bytes()).unwrap().into_iter().map(|a| a.subject).collect()
    };
    let joined = format!("{first}{second}");
    assert_eq!(subjects(&joined), [subjects(&first), subjects(&second)].concat());
    assert_eq!(subjects(&joined).len(), 2);
    let open = first.replace("-----END CERTIFICATE-----\n", "");
    assert!(process_pem(open.as_bytes()).is_err());
}

#[test]
fn anchors_follow_what_was_read() {
    let items = vec![Ok(der(&CA)), Err("bad".to_string())];
    assert_eq!(
        message_of(anchors_from_items(items)),
        "Error processing PEM certificates: bad."
    );
    let anchors = anchors_from_items(vec![Ok(der(&CA)), Ok(der(&BOUND_CA))]).unwrap();
    assert_eq!(anchors.len(), 2);
    assert!(anchors[0].subject.ends_with(b"Test CA"));
    assert!(anchors[1].subject.ends_with(b"Bound CA"));
    let results: Vec<Result<TrustAnchor, String>> = vec![Err("no".to_string())];
    assert_eq!(message_of(collect_anchors(results)), "Error processing trust anchor: no.");
}

#[test]
fn roots_are_taken_raw_then_in_base64_then_from_their_file() {
    let ca = pem(CERT, &CA);
    let two = format!("{ca}{}", pem(CERT, &BOUND_CA));
    let in_base64 = encode(&two);
    let all = config(&[
        ("root_ca_certificate_file", "/r"),
        ("root_ca_certificate_base64", &in_base64),
        ("root_ca_certificate_raw", &ca),
    ]);
    assert_eq!(done(load_trust_anchors(&all, &None)).unwrap().len(), 1);
    let b64 = config(&[
        ("root_ca_certificate_file", "/r"),
        ("root_ca_certificate_base64", &in_base64),
    ]);
    assert_eq!(done(load_trust_anchors(&b64, &None)).unwrap().len(), 2);
    let file = config(&[("root_ca_certificate_file", "/r")]);
    assert_eq!(
        asked(load_trust_anchors(&file, &None)),
        (FileRole::RootCaCertificate, "/r".to_string())
    );
    let store = done(load_trust_anchors(&file, &Some(contents(&two)))).unwrap();
    assert_eq!(store.len(), 2);
    assert_eq!(
        store.roots[0].subject().as_ref(),
        b"\x30\x12\x31\x10\x30\x0e\x06\x03\x55\x04\x03\x0c\x07Test CA"
    );
    assert!(done(load_trust_anchors(&config(&[]), &None)).is_none());
}

#[test]
fn roots_that_cannot_be_loaded() {
    let file = config(&[("root_ca_certificate_file", "/r")]);
    let gone = Some(FileRead::OpenFailed("gone".to_string()));
    assert_eq!(message_of(load_trust_anchors(&file, &gone)), "gone");
    let cut = Some(cut_off("", "cut"));
    assert_eq!(
        message_of(load_trust_anchors(&file, &cut)),
        "Error processing PEM certificates: cut."
    );
    let b64 = config(&[("root_ca_certificate_base64", "?")]);
    assert_eq!(kind_of(load_trust_anchors(&b64, &None)), ErrorKind::Base64);
    let junk = pem(CERT, &["AAAA"]);
    let raw = config(&[("root_ca_certificate_raw", &junk)]);
    assert_eq!(kind_of(load_trust_anchors(&raw, &None)), ErrorKind::TrustAnchor);
}

#[test]
fn a_root_file_that_breaks_off_names_its_first_error() {
    let file = config(&[("root_ca_certificate_file", "/r")]);
    let message = |before: &str| {
        message_of(load_trust_anchors(&file, &Some(cut_off(before, "cut"))))
    };
    let good = pem(CERT, &CA);
    let no_anchor = pem(CERT, &["AAAA"]);
    let malformed = pem(CERT, &["?"]);
    let open = &good[..good.len() / 2];
    let cut = "Error processing PEM certificates: cut.";
    assert_eq!(message("no certificate\n"), cut);
    assert_eq!(message(&good), cut);
    assert_eq!(message(&no_anchor), cut);
    assert_eq!(message(open), cut);
    assert_eq!(message(&format!("{good}-----BEGIN")), cut);
    let raw = config(&[("root_ca_certificate_raw", &malformed)]);
    let first = message_of(load_trust_anchors(&raw, &None));
    assert_ne!(first, cut);
    assert_eq!(message(&malformed), first);
    assert_eq!(message(&format!("{good}{malformed}{open}")), first);
}

#[test]
fn texts_without_a_dash_hold_nothing() {
    for text in ["", "\n", "BEGIN CERTIFICATE\nAAAA\n", "+++"] {
        assert_eq!(certificates(text.as_bytes()).unwrap().len(), 0);
        assert_eq!(private_key(text.as_bytes()).unwrap(), None);
        assert_eq!(process_pem(text.as_bytes()).unwrap().len(), 0);
    }
}

#[test]
fn a_root_source_without_a_certificate_is_an_empty_store() {
    let raw = config(&[("root_ca_certificate_raw", "")]);
    assert_eq!(done(load_trust_anchors(&raw, &None)).unwrap().len(), 0);
}

#[test]
fn default_roots_are_all_there() {
    let store = load_default_webpki_certs();
    assert_eq!(store.len(), webpki_roots::TLS_SERVER_ROOTS.len());
    assert!(store.len() > 50);
    for (root, wanted) in store.roots.iter().zip(webpki_roots::TLS_SERVER_ROOTS.iter()) {
        let rebuilt = OwnedTrustAnchor::from_subject_spki_name_constraints(
            wanted.subject.to_vec(),
            wanted.subject_public_key_info.to_vec(),
            wanted.name_constraints.clone().map(|c| c.to_vec()),
        );
        assert_eq!(format!("{root:?}"), format!("{rebuilt:?}"));
    }
}

// ---------------------------------------------------------------- identities

#[test]
fn an_identity_names_its_side_in_errors() {
    let bad = || Err("bad".to_string());
    let bad_key = || Err("bad".to_string());
    assert_eq!(
        message_of(identity_from(Side::Server, bad(), bad_key())),
        "Error processing server certificate: bad."
    );
    assert_eq!(
        message_of(identity_from(Side::Client, bad(), bad_key())),
        "Error processing client certificate: bad."
    );
    assert_eq!(
        message_of(identity_from(Side::Server, Ok(vec![]), bad_key())),
        "Error processing server key: bad."
    );
    assert_eq!(
        message_of(identity_from(Side::Client, Ok(vec![]), bad_key())),
        "Error processing client key: bad."
    );
    assert_eq!(
        message_of(identity_from(Side::Server, Ok(vec![]), Ok(None))),
        "No private key found for TLS server."
    );
    assert_eq!(
        message_of(identity_from(Side::Client, Ok(vec![]), Ok(None))),
        "No private key found for TLS client."
    );
    let identity = identity_from(Side::Server, Ok(vec![vec![7]]), Ok(Some(vec![8]))).unwrap();
    assert_eq!(identity.certificates, vec![vec![7]]);
    assert_eq!(identity.key, vec![8]);
}

#[test]
fn the_key_file_is_asked_for_before_the_certificate_file() {
    let c = config(&[("client_private_key_file", "/k"), ("client_certificate_file", "/c")]);
    let mut files = Files::none();
    let (role, path) = asked(load_identity(Side::Client, &c, &files));
    assert_eq!((role, path), (FileRole::PrivateKey, "/k".to_string()));
    files.record(role, contents(&pem(SEC1, &CLIENT_SEC1)));
    let (role, path) = asked(load_identity(Side::Client, &c, &files));
    assert_eq!((role, path), (FileRole::Certificate, "/c".to_string()));
    files.record(role, contents(&pem(CERT, &CLIENT_CERT)));
    let identity = done(load_identity(Side::Client, &c, &files));
    assert_eq!(identity.certificates, vec![der(&CLIENT_CERT)]);
    assert_eq!(identity.key, der(&CLIENT_SEC1));
}

// ---------------------------------------------------------------- server configurations

fn server_entries() -> Vec<(String, String)> {
    vec![
        ("server_private_key_raw".to_string(), pem(PKCS1, &SERVER_PKCS1)),
        ("server_certificate_base64".to_string(), encode(&pem(CERT, &SERVER_CERT))),
    ]
}

fn mutual_server_entries() -> Vec<(String, String)> {
    let mut entries = server_entries();
    entries.push(("client_auth".to_string(), "true".to_string()));
    entries.push(("root_ca_certificate_raw".to_string(), pem(CERT, &CA)));
    entries
}

fn server_of(entries: Vec<(String, String)>) -> ServerConfig {
    done(TlsServerConfig::new(&Config { entries }, &Files::none())).server_config
}

#[test]
fn server_material_follows_the_client_auth_switch() {
    let open = done(server_material(&Config { entries: server_entries() }, &Files::none()));
    assert!(open.client_roots.is_none());
    assert_eq!(open.identity.certificates, vec![der(&SERVER_CERT)]);
    assert_eq!(open.identity.key, der(&SERVER_PKCS1));
    let c = Config { entries: mutual_server_entries() };
    let mutual = done(server_material(&c, &Files::none()));
    assert_eq!(mutual.client_roots.unwrap().len(), 1);
}

#[test]
fn server_errors_come_in_order() {
    let none = Files::none();
    let mut entries = server_entries();
    entries.insert(0, ("client_auth".to_string(), "yes".to_string()));
    assert_eq!(
        message_of(TlsServerConfig::new(&Config { entries }, &none)),
        "Unknown client auth argument: yes"
    );
    let no_key = config(&[]);
    assert_eq!(kind_of(TlsServerConfig::new(&no_key, &none)), ErrorKind::MissingKey);
    let no_cert = config(&[("server_private_key_raw", "")]);
    assert_eq!(kind_of(TlsServerConfig::new(&no_cert, &none)), ErrorKind::MissingCertificates);
    let empty = config(&[("server_private_key_raw", ""), ("server_certificate_raw", "")]);
    assert_eq!(
        message_of(TlsServerConfig::new(&empty, &none)),
        "No private key found for TLS server."
    );
    let open = "-----BEGIN CERTIFICATE-----\n";
    let bad_cert = config(&[("server_private_key_raw", open), ("server_certificate_raw", open)]);
    assert_eq!(kind_of(TlsServerConfig::new(&bad_cert, &none)), ErrorKind::ServerCertificate);
    let bad_key = config(&[("server_private_key_raw", open), ("server_certificate_raw", "")]);
    assert_eq!(kind_of(TlsServerConfig::new(&bad_key, &none)), ErrorKind::ServerKey);
    let mut entries = server_entries();
    entries.push(("client_auth".to_string(), "true".to_string()));
    assert_eq!(
        message_of(TlsServerConfig::new(&Config { entries }, &none)),
        "Missing root certificates while client authentication is enabled."
    );
}

#[test]
fn a_server_key_that_is_no_key_is_refused() {
    let junk = pem(PKCS1, &["AAAA"]);
    let c = config(&[("server_private_key_raw", &junk), ("server_certificate_raw", "")]);
    assert_eq!(
        message_of(TlsServerConfig::new(&c, &Files::none())),
        "unexpected error: invalid private key"
    );
    let ca = pem(CERT, &CA);
    let c = config(&[
        ("server_private_key_raw", &junk),
        ("server_certificate_raw", ""),
        ("client_auth", "true"),
        ("root_ca_certificate_raw", &ca),
    ]);
    let e = TlsServerConfig::new(&c, &Files::none());
    assert_eq!(kind_of(e), ErrorKind::Tls);
    assert_eq!(
        message_of(TlsServerConfig::from_built(Err("no".to_string()))),
        "no"
    );
}

#[test]
fn a_server_key_without_a_byte_is_refused() {
    let empty = pem(PKCS8, &[]);
    let c = config(&[("server_private_key_raw", &empty), ("server_certificate_raw", "")]);
    assert_eq!(kind_of(TlsServerConfig::new(&c, &Files::none())), ErrorKind::Tls);
}

fn surely_taken(key: Vec<u8>) -> bool {
    Identity { certificates: vec![], key }.is_surely_taken()
}

#[test]
fn rsa_and_eddsa_keys_are_surely_taken() {
    assert!(surely_taken(der(&SERVER_PKCS1)));
    assert!(surely_taken(der(&SERVER_PKCS8)));
    assert!(surely_taken(der(&ED25519_PKCS8)));
    assert!(!surely_taken(der(&CLIENT_SEC1)));
    assert!(!surely_taken(der(&CLIENT_PKCS8)));
    assert!(!surely_taken(vec![]));
}

#[test]
fn keys_of_all_kinds_are_taken_by_a_server() {
    let keys = [
        pem(PKCS1, &SERVER_PKCS1),
        pem(PKCS8, &SERVER_PKCS8),
        pem(SEC1, &CLIENT_SEC1),
        pem(PKCS8, &CLIENT_PKCS8),
        pem(PKCS8, &ED25519_PKCS8),
    ];
    for key in keys {
        let c = config(&[("server_private_key_raw", &key), ("server_certificate_raw", "")]);
        done(TlsServerConfig::new(&c, &Files::none()));
    }
}

#[test]
fn a_server_asks_for_its_files_one_by_one() {
    let c = config(&[
        ("server_private_key_file", "/k"),
        ("server_certificate_file", "/c"),
        ("root_ca_certificate_file", "/r"),
        ("client_auth", "true"),
    ]);
    let mut files = Files::none();
    let mut seen = vec![];
    let server = loop {
        match TlsServerConfig::new(&c, &files) {
            Ok(Load::Done(server)) => break server,
            Ok(Load::Read { file, path }) => {
                let text = match path.as_str() {
                    "/k" => pem(PKCS8, &SERVER_PKCS8),
                    "/c" => pem(CERT, &SERVER_CERT),
                    _ => pem(CERT, &CA),
                };
                seen.push((file, path));
                files.record(file, contents(&text));
            }
            Err(e) => panic!("{}", e.message()),
        }
    };
    assert_eq!(
        seen,
        vec![
            (FileRole::PrivateKey, "/k".to_string()),
            (FileRole::Certificate, "/c".to_string()),
            (FileRole::RootCaCertificate, "/r".to_string()),
        ]
    );
    assert_eq!(server.server_config.alpn_protocols.len(), 0);
}

#[test]
fn a_server_without_client_auth_asks_for_no_roots() {
    let mut entries = server_entries();
    entries.push(("root_ca_certificate_file".to_string(), "/r".to_string()));
    entries.push(("client_auth".to_string(), "false".to_string()));
    server_of(entries);
}

// ---------------------------------------------------------------- client configurations

fn client_entries() -> Vec<(String, String)> {
    vec![
        ("root_ca_certificate_raw".to_string(), pem(CERT, &CA)),
        ("server_name_verification".to_string(), "true".to_string()),
    ]
}

fn mutual_client_entries() -> Vec<(String, String)> {
    let mut entries = client_entries();
    entries.push(("client_auth".to_string(), "true".to_string()));
    entries.push(("client_private_key_raw".to_string(), pem(SEC1, &CLIENT_SEC1)));
    entries.push(("client_certificate_raw".to_string(), pem(CERT, &CLIENT_CERT)));
    entries
}

fn client_of(entries: Vec<(String, String)>) -> ClientConfig {
    let client = done(TlsClientConfig::new(&Config { entries }, &Files::none()));
    assert!(client.any_name_roots.is_none());
    client.client_config
}

#[test]
fn a_client_trusts_the_default_roots_and_its_own() {
    let defaults = webpki_roots::TLS_SERVER_ROOTS.len();
    let (check, material) = done(client_material(&config(&[]), &Files::none()));
    assert!(!check);
    assert!(material.identity.is_none());
    assert_eq!(material.roots.len(), defaults);
    let c = Config { entries: client_entries() };
    let (check, material) = done(client_material(&c, &Files::none()));
    assert!(check);
    assert_eq!(material.roots.len(), defaults + 1);
    let last = material.roots.roots[defaults].subject().as_ref().to_vec();
    assert!(last.ends_with(b"Test CA"));
    let c = Config { entries: mutual_client_entries() };
    let (_, material) = done(client_material(&c, &Files::none()));
    assert_eq!(material.identity.unwrap().key, der(&CLIENT_SEC1));
}

#[test]
fn without_name_verification_the_roots_are_for_another_verifier() {
    let mut entries = mutual_client_entries();
    entries.retain(|(k, _)| k != "server_name_verification");
    let client = done(TlsClientConfig::new(&Config { entries }, &Files::none()));
    let roots = client.any_name_roots.unwrap();
    assert_eq!(roots.len(), webpki_roots::TLS_SERVER_ROOTS.len() + 1);
    // Until the other verifier is in place, names are checked.
    let server = server_of(mutual_server_entries());
    let (_, shown) = handshake(server, client.client_config, "localhost").unwrap();
    assert_eq!(shown.unwrap(), vec![Certificate(der(&CLIENT_CERT))]);
}

#[test]
fn client_errors_come_in_order() {
    let none = Files::none();
    let c = config(&[("client_auth", "1"), ("server_name_verification", "0")]);
    assert_eq!(
        message_of(TlsClientConfig::new(&c, &none)),
        "Unknown client auth argument: 1"
    );
    let c = config(&[("server_name_verification", "0"), ("root_ca_certificate_base64", "?")]);
    assert_eq!(
        message_of(TlsClientConfig::new(&c, &none)),
        "Unknown server name verification argument: 0"
    );
    let c = config(&[("client_auth", "true"), ("root_ca_certificate_base64", "?")]);
    assert_eq!(kind_of(TlsClientConfig::new(&c, &none)), ErrorKind::Base64);
    let c = config(&[("client_auth", "true")]);
    assert_eq!(kind_of(TlsClientConfig::new(&c, &none)), ErrorKind::MissingKey);
    let c = config(&[
        ("client_auth", "true"),
        ("client_private_key_raw", ""),
        ("client_certificate_raw", ""),
    ]);
    assert_eq!(kind_of(TlsClientConfig::new(&c, &none)), ErrorKind::NoClientKey);
    let open = "-----BEGIN CERTIFICATE-----\n";
    let c = config(&[
        ("client_auth", "true"),
        ("client_private_key_raw", open),
        ("client_certificate_raw", open),
    ]);
    assert_eq!(kind_of(TlsClientConfig::new(&c, &none)), ErrorKind::ClientCertificate);
}

#[test]
fn a_client_key_that_is_no_key_is_refused() {
    let junk = pem(SEC1, &["AAAA"]);
    let c = config(&[
        ("client_auth", "true"),
        ("client_private_key_raw", &junk),
        ("client_certificate_raw", ""),
    ]);
    assert_eq!(
        message_of(TlsClientConfig::new(&c, &Files::none())),
        "Bad certificate/key: unexpected error: invalid private key"
    );
}

#[test]
fn what_the_tls_stack_says_is_taken_over() {
    let roots = RootCertStore::empty;
    assert_eq!(
        message_of(TlsClientConfig::from_built(Err("versions".to_string()), true, roots())),
        "Config parameters should be valid: versions"
    );
    assert_eq!(
        message_of(TlsClientConfig::from_built(Ok(Err("key".to_string())), true, roots())),
        "Bad certificate/key: key"
    );
    let built = client_of(client_entries());
    let client = TlsClientConfig::from_built(Ok(Ok(built)), true, roots()).unwrap();
    assert!(client.any_name_roots.is_none());
    let client = TlsClientConfig::from_built(Ok(Ok(client.client_config)), false, roots());
    assert_eq!(client.unwrap().any_name_roots.unwrap().len(), 0);
}

#[test]
fn a_client_asks_for_roots_first() {
    let c = config(&[
        ("client_private_key_file", "/k"),
        ("client_certificate_file", "/c"),
        ("root_ca_certificate_file", "/r"),
        ("client_auth", "true"),
    ]);
    let mut files = Files::none();
    let (role, path) = asked(client_material(&c, &files));
    assert_eq!((role, path), (FileRole::RootCaCertificate, "/r".to_string()));
    files.record(role, contents(&pem(CERT, &CA)));
    assert_eq!(asked(client_material(&c, &files)).0, FileRole::PrivateKey);
    files.record(FileRole::PrivateKey, contents(&pem(SEC1, &CLIENT_SEC1)));
    assert_eq!(asked(client_material(&c, &files)).0, FileRole::Certificate);
    files.record(FileRole::Certificate, contents(&pem(CERT, &CLIENT_CERT)));
    assert!(done(client_material(&c, &files)).1.identity.is_some());
}

#[test]
fn files_that_are_not_asked_for_change_nothing() {
    let mut files = Files::none();
    files.record(FileRole::PrivateKey, contents("x"));
    files.record(FileRole::Certificate, FileRead::OpenFailed("x".to_string()));
    files.record(FileRole::RootCaCertificate, cut_off("", "x"));
    let c = Config { entries: mutual_server_entries() };
    let material = done(server_material(&c, &files));
    assert_eq!(material.identity.key, der(&SERVER_PKCS1));
    assert_eq!(material.client_roots.unwrap().len(), 1);
    let c = Config { entries: mutual_client_entries() };
    let (_, material) = done(client_material(&c, &files));
    assert_eq!(material.identity.unwrap().key, der(&CLIENT_SEC1));
}

#[test]
fn a_client_without_auth_asks_for_no_identity() {
    let c = config(&[("client_private_key_file", "/k"), ("client_certificate_file", "/c")]);
    assert!(done(client_material(&c, &Files::none())).1.identity.is_none());
}

// ---------------------------------------------------------------- handshakes

/// Shakes hands in memory. Gives the protocol version and what the client showed.
fn handshake(
    server: ServerConfig,
    client: ClientConfig,
    name: &str,
) -> Result<(ProtocolVersion, Option<Vec<Certificate>>), String> {
    let mut s = ServerConnection::new(Arc::new(server)).map_err(|e| e.to_string())?;
    let name = ServerName::try_from(name).unwrap();
    let mut c = ClientConnection::new(Arc::new(client), name).map_err(|e| e.to_string())?;
    for _ in 0..20 {
        let mut bytes = vec![];
        while c.wants_write() {
            c.write_tls(&mut bytes).unwrap();
        }
        let mut rest = bytes.as_slice();
        while !rest.is_empty() {
            s.read_tls(&mut rest).unwrap();
            s.process_new_packets().map_err(|e| e.to_string())?;
        }
        let mut bytes = vec![];
        while s.wants_write() {
            s.write_tls(&mut bytes).unwrap();
        }
        let mut rest = bytes.as_slice();
        while !rest.is_empty() {
            c.read_tls(&mut rest).unwrap();
            c.process_new_packets().map_err(|e| e.to_string())?;
        }
    }
    if s.is_handshaking() || c.is_handshaking() {
        return Err("unfinished".to_string());
    }
    Ok((s.protocol_version().unwrap(), s.peer_certificates().map(|c| c.to_vec())))
}

fn tls12_client() -> ClientConfig {
    let mut store = RootCertStore::empty();
    store.add(&Certificate(der(&CA))).unwrap();
    ClientConfig::builder()
        .with_safe_default_cipher_suites()
        .with_safe_default_kx_groups()
        .with_protocol_versions(&[&TLS12])
        .unwrap()
        .with_root_certificates(store)
        .with_no_client_auth()
}

#[test]
fn server_and_client_shake_hands() {
    let (version, shown) =
        handshake(server_of(server_entries()), client_of(client_entries()), "localhost").unwrap();
    assert_eq!(version, ProtocolVersion::TLSv1_3);
    assert!(shown.is_none());
}

#[test]
fn client_and_server_authenticate_each_other() {
    let (version, shown) = handshake(
        server_of(mutual_server_entries()),
        client_of(mutual_client_entries()),
        "localhost",
    )
    .unwrap();
    assert_eq!(version, ProtocolVersion::TLSv1_3);
    assert_eq!(shown.unwrap(), vec![Certificate(der(&CLIENT_CERT))]);
}

#[test]
fn a_server_with_client_auth_refuses_a_client_without() {
    let server = server_of(mutual_server_entries());
    assert!(handshake(server, client_of(client_entries()), "localhost").is_err());
}

#[test]
fn client_auth_leaves_tls_13_alone() {
    let server = server_of(server_entries());
    let (version, _) = handshake(server, tls12_client(), "localhost").unwrap();
    assert_eq!(version, ProtocolVersion::TLSv1_2);
    assert!(handshake(server_of(mutual_server_entries()), tls12_client(), "localhost").is_err());
}

#[test]
fn a_client_that_checks_names_refuses_another_name() {
    let server = server_of(server_entries());
    assert!(handshake(server, client_of(client_entries()), "elsewhere").is_err());
}

#[test]
fn a_client_without_the_root_refuses_the_server() {
    let mut entries = client_entries();
    entries.retain(|(k, _)| k != "root_ca_certificate_raw");
    let server = server_of(server_entries());
    assert!(handshake(server, client_of(entries), "localhost").is_err());
}
