use std::borrow::Cow;

use artichoke_bridge::boxing::{Encoding, Payload};
use artichoke_bridge::convert::UnboxRubyError;
use artichoke_bridge::encoding::{
    aliases, ascii_compatible, compatible, dummy, find, inspect, list, locale_charmap, name,
    name_list, names, replicate,
};
use artichoke_bridge::exception::{Error, Exception, UncaughtThrowError};
use artichoke_bridge::interp::Artichoke;
use artichoke_bridge::string::BinaryString;
use artichoke_bridge::text::{bytes_eq, decimal_string};
use artichoke_bridge::types::{Ruby, Rust};
use artichoke_bridge::value::Value;

#[test]
fn uncaught_throw_error_has_its_class_name_as_message() {
    let exception = UncaughtThrowError::new();
    assert_eq!(exception.message(), b"UncaughtThrowError");
    assert_eq!(exception.name(), "UncaughtThrowError");
    assert_eq!(UncaughtThrowError::default().message(), b"");
}

#[test]
fn uncaught_throw_error_keeps_the_message_given() {
    let exception = UncaughtThrowError::from("something went wrong");
    assert_eq!(exception.message(), b"something went wrong");
    let exception = UncaughtThrowError::from(String::from("caf\u{e9}"));
    assert_eq!(exception.message(), "caf\u{e9}".as_bytes());
    let exception = UncaughtThrowError::from(vec![0xff, 0x00]);
    assert_eq!(exception.message(), &[0xff, 0x00]);
    let exception = UncaughtThrowError::from(&b"tag"[..]);
    assert_eq!(exception.message(), b"tag");
    assert_eq!(exception.name(), "UncaughtThrowError");
}

#[test]
fn uncaught_throw_error_takes_borrowed_and_owned_messages() {
    let exception = UncaughtThrowError::from(Cow::Borrowed("spam"));
    assert_eq!(exception.message(), b"spam");
    let exception = UncaughtThrowError::from(Cow::<'static, str>::Owned(String::from("eggs")));
    assert_eq!(exception.message(), b"eggs");
    let exception = UncaughtThrowError::from(Cow::Borrowed(&b"\xff"[..]));
    assert_eq!(exception.message(), b"\xff");
    let exception = UncaughtThrowError::from(Cow::<'static, [u8]>::Owned(vec![1, 2]));
    assert_eq!(exception.message(), &[1, 2]);
}

#[test]
fn uncaught_throw_errors_are_equal_by_message() {
    assert_eq!(UncaughtThrowError::new(), UncaughtThrowError::from("UncaughtThrowError"));
    assert_eq!(UncaughtThrowError::from("a").clone(), UncaughtThrowError::from(vec![b'a']));
    assert_ne!(UncaughtThrowError::from("a"), UncaughtThrowError::from("b"));
    assert_ne!(UncaughtThrowError::from("a"), UncaughtThrowError::from("ab"));
    assert_ne!(UncaughtThrowError::new(), UncaughtThrowError::default());
}

#[test]
fn uncaught_throw_error_shows_as_name_and_message() {
    let exception = UncaughtThrowError::from("uncaught throw :foo");
    assert_eq!(
        exception.display("uncaught throw :foo"),
        "UncaughtThrowError (uncaught throw :foo)"
    );
    assert_eq!(UncaughtThrowError::from(vec![0xff]).display("\\xFF"), "UncaughtThrowError (\\xFF)");
    assert_eq!(UncaughtThrowError::default().display(""), "UncaughtThrowError ()");
}

#[test]
fn errors_have_name_and_message() {
    let error = Error::argument("mon out of range");
    assert!(matches!(error, Error::Argument(_)));
    assert_eq!(error.name(), "ArgumentError");
    assert_eq!(error.message(), b"mon out of range".as_slice());

    let error = Error::type_error("no");
    assert!(matches!(error, Error::Type(_)));
    assert_eq!(error.name(), "TypeError");
    assert_eq!(error.message(), b"no".as_slice());

    let error = Error::fatal("Unreachable Ruby value");
    assert!(matches!(error, Error::Fatal(_)));
    assert_eq!(error.name(), "fatal");
    assert_eq!(error.message(), b"Unreachable Ruby value".as_slice());

    let error = Error::not_implemented();
    assert!(matches!(error, Error::NotImplemented(_)));
    assert_eq!(error.name(), "NotImplementedError");
    assert_eq!(error.message(), b"NotImplementedError".as_slice());

    let error = Error::from(UncaughtThrowError::from("uncaught throw :done"));
    assert!(matches!(error, Error::UncaughtThrow(_)));
    assert_eq!(error.name(), "UncaughtThrowError");
    assert_eq!(error.message(), b"uncaught throw :done".as_slice());

    let error =
        Error::Raised(Exception { class: String::from("KeyError"), message: b"k".to_vec() });
    assert_eq!(error.name(), "KeyError");
    assert_eq!(error.message(), b"k".as_slice());
}

fn assert_not_implemented(result: Result<Value, Error>) {
    let error = result.unwrap_err();
    assert!(matches!(error, Error::NotImplemented(_)));
    assert_eq!(error.name(), "NotImplementedError");
    assert_eq!(error.message(), b"NotImplementedError".as_slice());
}

#[test]
fn encoding_entry_points_are_not_provided() {
    let mut interp = Artichoke::new();
    let encoding = Value::Nil;
    assert_not_implemented(aliases(&mut interp));
    assert_not_implemented(compatible(&mut interp, encoding, encoding));
    assert_not_implemented(find(&mut interp, encoding));
    assert_not_implemented(list(&mut interp));
    assert_not_implemented(locale_charmap(&mut interp));
    assert_not_implemented(name_list(&mut interp));
    assert_not_implemented(ascii_compatible(&mut interp, encoding));
    assert_not_implemented(dummy(&mut interp, encoding));
    assert_not_implemented(inspect(&mut interp, encoding));
    assert_not_implemented(names(&mut interp, encoding));
    assert_not_implemented(replicate(&mut interp, encoding, encoding));
    assert_eq!(interp.heap.len(), 0);
}

#[test]
fn encoding_name_is_a_new_string() {
    let mut interp = Artichoke::new();
    let cases = [
        (Encoding::Utf8, &b"UTF-8"[..]),
        (Encoding::Ascii, &b"US-ASCII"[..]),
        (Encoding::Binary, &b"ASCII-8BIT"[..]),
    ];
    for (native, expected) in cases {
        let encoding = interp.heap.allocate(Ruby::Data).unwrap();
        interp.heap.attach(&encoding, Payload::Encoding(native));
        let made = interp.heap.len();
        let string = name(&mut interp, encoding).unwrap();
        assert_eq!(string, Value::Heap { tag: Ruby::String, slot: made });
        match interp.heap.try_borrow(&string, Rust::Bytes).unwrap() {
            Payload::Bytes(bytes) => assert_eq!(bytes, expected),
            other => panic!("{:?}", other),
        }
    }
}

#[test]
fn encoding_name_of_what_is_no_encoding_is_refused() {
    let mut interp = Artichoke::new();
    let string = interp.heap.allocate(Ruby::String).unwrap();
    interp.heap.attach(&string, Payload::Bytes(b"UTF-8".to_vec()));
    for value in [Value::Nil, Value::Fixnum(1), string] {
        let error = name(&mut interp, value).unwrap_err();
        let expected = UnboxRubyError { from: value.ruby_type(), into: Rust::Object };
        assert!(matches!(error, Error::Unbox(inner) if inner == expected));
    }
    assert_eq!(interp.heap.len(), 1);
}

#[test]
fn binary_string_holds_bytes() {
    assert_eq!(BinaryString::from(vec![1, 2, 3]).as_slice(), &[1, 2, 3]);
    assert_eq!(BinaryString::from(&b"abc"[..]).as_slice(), b"abc");
    assert_eq!(BinaryString::from([0xff_u8, 0xfe]).as_slice(), &[0xff, 0xfe]);
    assert_eq!(BinaryString::from(String::from("caf\u{e9}")).as_slice(), "caf\u{e9}".as_bytes());
    assert_eq!(BinaryString::from("abc").as_slice(), b"abc");
    assert_eq!(BinaryString::new(b"xyz".to_vec()).into_buf(), b"xyz");
    assert_eq!(BinaryString::default().as_slice(), b"");
    let buf: Vec<u8> = BinaryString::from("abc").into();
    assert_eq!(buf, b"abc");
}

#[test]
fn binary_string_by_the_std_traits() {
    let mut string = BinaryString::from(&[1_u8, 2, 3]);
    let bytes: &[u8] = string.as_ref();
    assert_eq!(bytes, &[1, 2, 3]);
    assert_eq!(string.len(), 3);
    assert_eq!(string[1], 2);
    string[1] = 9;
    string.as_mut()[2] = 7;
    assert_eq!(&*string, &[1, 9, 7]);

    let mut content = [4_u8, 5];
    assert_eq!(BinaryString::from(&mut content[..]).as_slice(), &[4, 5]);
    assert_eq!(BinaryString::from(Cow::Borrowed(&b"ab"[..])).as_slice(), b"ab");
    assert_eq!(BinaryString::from(Cow::<[u8]>::Owned(vec![6])).as_slice(), &[6]);
}

#[test]
fn binary_string_grows_and_is_written_in_place() {
    let mut string = BinaryString::from("abc");
    string.extend(b"def");
    string.extend(b"");
    assert_eq!(string.as_slice(), b"abcdef");
    string.as_mut_slice()[0] = b'A';
    string.as_mut_slice().reverse();
    assert_eq!(string.as_slice(), b"fedcbA");
}

#[test]
fn numbers_in_decimal() {
    assert_eq!(decimal_string(0), "0");
    assert_eq!(decimal_string(9), "9");
    assert_eq!(decimal_string(10), "10");
    assert_eq!(decimal_string(1234567890), "1234567890");
    assert_eq!(decimal_string(usize::MAX), usize::MAX.to_string());
}

#[test]
fn byte_strings_compare_byte_for_byte() {
    assert!(bytes_eq(b"", b""));
    assert!(bytes_eq(b"abc", b"abc"));
    assert!(!bytes_eq(b"abc", b"abd"));
    assert!(!bytes_eq(b"abc", b"ab"));
    assert!(!bytes_eq(b"", b"a"));
}
