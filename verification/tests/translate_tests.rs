use murmur_api::translate::{pubkey_to_bytes, str_to_bytes};

#[test]
fn pubkey_decodes_with_prefix() {
    assert_eq!(pubkey_to_bytes("0x00ff").unwrap(), vec![0u8, 255]);
}

#[test]
fn pubkey_decodes_without_prefix() {
    assert_eq!(pubkey_to_bytes("00ff").unwrap(), vec![0u8, 255]);
}

#[test]
fn pubkey_accepts_either_case() {
    assert_eq!(pubkey_to_bytes("0xAbCd").unwrap(), vec![0xabu8, 0xcd]);
}

#[test]
fn pubkey_rejects_odd_length() {
    let err = pubkey_to_bytes("0xabc").unwrap_err();
    assert_eq!(err, "Wrong input `abc`");
}

#[test]
fn pubkey_rejects_non_hex() {
    let err = pubkey_to_bytes("zz").unwrap_err();
    assert_eq!(err, "Wrong input `zz`");
}

#[test]
fn pubkey_empty_is_valid_and_empty() {
    assert_eq!(pubkey_to_bytes("").unwrap(), Vec::<u8>::new());
}

fn thirty_two(prefix: &str) -> String {
    let mut s = String::new();
    for i in 0..32 {
        if i > 0 {
            s.push(',');
        }
        s.push_str(&format!("{prefix}{i}"));
    }
    s
}

#[test]
fn str_to_bytes_parses_thirty_two_values() {
    let input = thirty_two("");
    let arr = str_to_bytes(&input).unwrap();
    for i in 0..32 {
        assert_eq!(arr[i], i as u8);
    }
}

#[test]
fn str_to_bytes_trims_whitespace() {
    let input = thirty_two(" ");
    let arr = str_to_bytes(&input).unwrap();
    assert_eq!(arr[31], 31);
    let spaced = " 0 , 1,2,3,4,5,6,7,8,9,10,11,12,13,14,15,16,17,18,19,20,21,22,23,24,25,26,27,28,29,30, 255 ";
    let arr = str_to_bytes(spaced).unwrap();
    assert_eq!(arr[0], 0);
    assert_eq!(arr[31], 255);
}

#[test]
fn str_to_bytes_accepts_plus_sign() {
    let input = thirty_two("+");
    let arr = str_to_bytes(&input).unwrap();
    assert_eq!(arr[5], 5);
}

#[test]
fn str_to_bytes_rejects_wrong_length() {
    assert_eq!(str_to_bytes("1,2,3").unwrap_err(), "Vector length is not 32");
    let mut long = thirty_two("");
    long.push_str(",0");
    assert_eq!(str_to_bytes(&long).unwrap_err(), "Vector length is not 32");
}

#[test]
fn str_to_bytes_rejects_bad_integers() {
    let mut input = thirty_two("");
    input = input.replace(",7,", ",x,");
    assert_eq!(str_to_bytes(&input).unwrap_err(), "Invalid integer in input");
    let mut input = thirty_two("");
    input = input.replace(",7,", ",256,");
    assert_eq!(str_to_bytes(&input).unwrap_err(), "Invalid integer in input");
    let mut input = thirty_two("");
    input = input.replace(",7,", ",,");
    assert_eq!(str_to_bytes(&input).unwrap_err(), "Invalid integer in input");
    assert_eq!(str_to_bytes("").unwrap_err(), "Invalid integer in input");
}
