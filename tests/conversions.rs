use strlike::data::{OwnsStrData, StrData};
use strlike::nul::{check_nul_terminated, NulError, NulStr};
use strlike::strlike::{StrLike, StrLikeMut};
use strlike::text::TextMut;

#[test]
fn text_from_valid_bytes() {
    let data: &[u8] = b"hello";
    let s = <&str as StrLike>::from_data(data).unwrap();
    assert_eq!(s, "hello");
}

#[test]
fn text_from_invalid_bytes() {
    let data: &[u8] = &[0xFF, 0xFE];
    assert!(<&str as StrLike>::from_data(data).is_err());
}

#[test]
fn text_round_trip() {
    let data: &[u8] = "grüße, 世界".as_bytes();
    let s = <&str as StrLike>::from_data(data).unwrap();
    assert_eq!(s.to_data(), data);
    assert_eq!(s, "grüße, 世界");
}

#[test]
fn text_unchecked_from_own_data() {
    let s: &str = "héllo";
    let back = <&str as StrLike>::from_data_unchecked(s.to_data());
    assert_eq!(back, s);
    assert_eq!(back.to_data(), s.to_data());
}

#[test]
fn text_truncated_sequence_is_refused() {
    let data: &[u8] = &[b'a', 0xE4, 0xB8];
    assert!(<&str as StrLike>::from_data(data).is_err());
}

#[test]
fn nul_from_terminated_bytes() {
    let data: &[u8] = b"abc\0";
    let c = NulStr::from_data(data).unwrap();
    assert_eq!(c.to_data().len(), 4);
    assert_eq!(c.to_data(), data);
    assert_eq!(c.to_bytes(), b"abc");
}

#[test]
fn nul_without_terminator() {
    let data: &[u8] = b"abc";
    assert_eq!(NulStr::from_data(data).err(), Some(NulError::NotNulTerminated));
}

#[test]
fn nul_with_interior_zero() {
    let data: &[u8] = b"ab\0c\0";
    assert_eq!(
        NulStr::from_data(data).err(),
        Some(NulError::InteriorNul { position: 2 })
    );
}

#[test]
fn nul_empty_data() {
    let data: &[u8] = b"";
    assert_eq!(check_nul_terminated(data), Err(NulError::NotNulTerminated));
}

#[test]
fn nul_only_terminator() {
    let data: &[u8] = b"\0";
    let c = NulStr::from_data(data).unwrap();
    assert_eq!(c.to_bytes(), b"");
    assert_eq!(check_nul_terminated(data), Ok(()));
}

#[test]
fn nul_leading_zero() {
    let data: &[u8] = b"\0a\0";
    assert_eq!(
        check_nul_terminated(data),
        Err(NulError::InteriorNul { position: 0 })
    );
}

#[test]
fn nul_unchecked_from_own_data() {
    let data: &[u8] = b"xy\0";
    let c = NulStr::from_data(data).unwrap();
    let back = NulStr::from_data_unchecked(c.to_data());
    assert_eq!(back.to_data(), data);
}

#[test]
fn raw_from_any_data() {
    let data: &[i32] = &[3, -1, 0, 7];
    let v = <&[i32] as StrLike>::from_data(data).unwrap();
    assert_eq!(v, data);
    assert_eq!(v.to_data(), data);
}

#[test]
fn raw_from_empty_data() {
    let data: &[u64] = &[];
    let v = <&[u64] as StrLike>::from_data(data).unwrap();
    assert!(v.is_empty());
    let u = <&[u64] as StrLike>::from_data_unchecked(data);
    assert!(u.is_empty());
}

#[test]
fn text_data_concatenation() {
    let a: &str = "ab";
    let b: &str = "ç€";
    let joined = format!("{}{}", a, b);
    let mut expected: Vec<u8> = a.to_data().to_vec();
    expected.extend_from_slice(b.to_data());
    assert_eq!(joined.as_str().to_data(), expected.as_slice());
    assert!(<&str as StrLike>::from_data(expected.as_slice()).is_ok());
}

#[test]
fn raw_data_concatenation() {
    let a: &[u16] = &[1, 2];
    let b: &[u16] = &[3];
    let joined: Vec<u16> = [a, b].concat();
    let mut expected: Vec<u16> = Vec::new();
    expected.push_data(a.to_data());
    expected.push_data(b.to_data());
    assert_eq!(joined.as_slice().to_data(), expected.as_slice());
}

#[test]
fn text_mut_valid_modification() {
    let mut buf: Vec<u8> = b"hello".to_vec();
    let t = TextMut::from_data_mut(buf.as_mut_slice()).unwrap();
    let data = t.to_data_mut();
    data[0] = b'j';
    let t2 = TextMut::from_data_mut(data).unwrap();
    assert_eq!(t2.as_text(), "jello");
    assert_eq!(buf, b"jello".to_vec());
}

#[test]
fn text_mut_invalid_modification() {
    let mut buf: Vec<u8> = b"hello".to_vec();
    let t = TextMut::from_data_mut(buf.as_mut_slice()).unwrap();
    let data = t.to_data_mut();
    data[1] = 0xFF;
    assert!(TextMut::from_data_mut(data).is_err());
}

#[test]
fn text_mut_unchecked() {
    let mut buf: Vec<u8> = "añb".as_bytes().to_vec();
    let t = TextMut::from_data_mut_unchecked(buf.as_mut_slice());
    assert_eq!(t.as_text(), "añb");
}

#[test]
fn raw_mut_modification() {
    let mut buf: Vec<i8> = vec![1, 2, 3];
    let v = <&mut [i8] as StrLikeMut>::from_data_mut(buf.as_mut_slice()).unwrap();
    let data = v.to_data_mut();
    data[2] = -3;
    let again = <&mut [i8] as StrLikeMut>::from_data_mut_unchecked(data);
    assert_eq!(again, &mut [1, 2, -3][..]);
    assert_eq!(buf, vec![1, 2, -3]);
}
