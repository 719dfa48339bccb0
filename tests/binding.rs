use eztrans::{
    c_string, contains_nul, decode_from_engine, encode_for_engine, read_translation, resolve,
    to_c_bytes, EncodingError, EntryPoint, InitError, Phase, Session, TranslationError,
    DEFAULT_MODE, INIT_SUCCESS,
};

#[test]
fn it_works() {
    assert_eq!(2 + 2, 4);
}

#[test]
fn resolve_all_present_keeps_handles() {
    let t = resolve(Some(1u8), Some("tr"), Some(3i64)).ok().unwrap();
    assert_eq!(t.initialize, 1u8);
    assert_eq!(t.translate, "tr");
    assert_eq!(t.terminate, 3i64);
}

#[test]
fn resolve_names_missing_symbol() {
    let e = resolve::<u8, u8, u8>(None, Some(2), Some(3)).err().unwrap();
    assert_eq!(e.symbol, EntryPoint::Initialize);
    assert_eq!(e.symbol_name(), "J2K_InitializeEx");
    let e = resolve::<u8, u8, u8>(Some(1), None, Some(3)).err().unwrap();
    assert_eq!(e.symbol, EntryPoint::Translate);
    assert_eq!(e.symbol_name(), "J2K_TranslateMMNT");
    let e = resolve::<u8, u8, u8>(Some(1), Some(2), None).err().unwrap();
    assert_eq!(e.symbol, EntryPoint::Terminate);
    assert_eq!(e.symbol_name(), "J2K_Terminate");
}

#[test]
fn resolve_reports_first_of_several_missing() {
    let e = resolve::<u8, u8, u8>(Some(1), None, None).err().unwrap();
    assert_eq!(e.symbol, EntryPoint::Translate);
    let e = resolve::<u8, u8, u8>(None, None, None).err().unwrap();
    assert_eq!(e.symbol, EntryPoint::Initialize);
}

#[test]
fn nul_detection() {
    assert!(!contains_nul(b""));
    assert!(!contains_nul(b"abc"));
    assert!(contains_nul(b"ab\0c"));
    assert!(contains_nul(b"\0"));
}

#[test]
fn c_bytes_are_null_terminated() {
    assert_eq!(to_c_bytes(b"abc"), Ok(vec![b'a', b'b', b'c', 0]));
    assert_eq!(to_c_bytes(b""), Ok(vec![0]));
    assert_eq!(to_c_bytes(b"a\0b"), Err(EncodingError::EmbeddedNul));
    assert_eq!(c_string("C:\\Program Files\\ezTrans"), Ok(b"C:\\Program Files\\ezTrans\0".to_vec()));
    assert_eq!(c_string("x\0"), Err(EncodingError::EmbeddedNul));
}

#[test]
fn encode_ascii_text() {
    assert_eq!(encode_for_engine("abc"), Ok(b"abc\0".to_vec()));
    assert_eq!(encode_for_engine(""), Ok(vec![0]));
}

#[test]
fn encode_japanese_text_as_shift_jis() {
    // U+65E5 and U+672C are 0x93FA and 0x967B in Shift_JIS.
    assert_eq!(encode_for_engine("日本"), Ok(vec![0x93, 0xFA, 0x96, 0x7B, 0]));
}

#[test]
fn encode_rejects_unrepresentable_text() {
    assert_eq!(encode_for_engine("가"), Err(EncodingError::Unrepresentable));
    assert_eq!(encode_for_engine("a가b"), Err(EncodingError::Unrepresentable));
}

#[test]
fn encode_rejects_embedded_nul() {
    assert_eq!(encode_for_engine("a\0b"), Err(EncodingError::EmbeddedNul));
    assert_eq!(encode_for_engine("\0가"), Err(EncodingError::EmbeddedNul));
}

#[test]
fn decode_euc_kr_output() {
    assert_eq!(decode_from_engine(&[0xB0, 0xA1]), "가");
    assert_eq!(decode_from_engine(b"abc"), "abc");
    assert_eq!(decode_from_engine(b""), "");
}

#[test]
fn decode_replaces_malformed_bytes() {
    assert_eq!(decode_from_engine(&[0x41, 0xFF]), "A\u{FFFD}");
}

#[test]
fn translation_of_fixed_engine_output() {
    assert_eq!(read_translation(Some(&[0xB0, 0xA1])), Ok("가".to_string()));
}

#[test]
fn translation_of_null_result() {
    assert_eq!(read_translation(None), Err(TranslationError::NullResult));
}

#[test]
fn echo_engine_round_trips_ascii() {
    let mut s = Session::new();
    assert!(s.finish_initialize(INIT_SUCCESS));
    let call = s.prepare_translate("hello, world", DEFAULT_MODE).ok().unwrap();
    assert_eq!(call.mode, DEFAULT_MODE);
    // An engine that echoes its input returns the same bytes, null terminated.
    let echoed = &call.input[..call.input.len() - 1];
    assert_eq!(read_translation(Some(echoed)), Ok("hello, world".to_string()));
}

#[test]
fn translate_before_initialize_is_refused() {
    let s = Session::new();
    assert_eq!(s.phase(), Phase::Loaded);
    assert!(matches!(s.prepare_translate("x", DEFAULT_MODE), Err(TranslationError::NotInitialized)));
}

#[test]
fn failed_initialize_keeps_session_loaded() {
    let mut s = Session::new();
    assert!(!s.finish_initialize(0));
    assert_eq!(s.phase(), Phase::Loaded);
    assert!(!s.finish_initialize(-1));
    assert_eq!(s.phase(), Phase::Loaded);
    assert!(s.finish_initialize(1));
    assert_eq!(s.phase(), Phase::Initialized);
}

#[test]
fn initialize_arguments_are_null_terminated() {
    let s = Session::new();
    let c = s.prepare_initialize("", "C:\\ezTrans").ok().unwrap();
    assert_eq!(c.init_str, vec![0]);
    assert_eq!(c.home_dir, b"C:\\ezTrans\0".to_vec());
}

#[test]
fn initialize_with_embedded_nul_is_refused() {
    let s = Session::new();
    assert!(matches!(
        s.prepare_initialize("a\0", "home"),
        Err(InitError::Encoding(EncodingError::EmbeddedNul))
    ));
    assert!(matches!(
        s.prepare_initialize("init", "ho\0me"),
        Err(InitError::Encoding(EncodingError::EmbeddedNul))
    ));
}

#[test]
fn translate_with_embedded_nul_is_refused() {
    let mut s = Session::new();
    s.finish_initialize(INIT_SUCCESS);
    assert!(matches!(
        s.prepare_translate("a\0b", DEFAULT_MODE),
        Err(TranslationError::Encoding(EncodingError::EmbeddedNul))
    ));
    assert_eq!(s.phase(), Phase::Initialized);
}

#[test]
fn translate_passes_mode_through() {
    let mut s = Session::new();
    s.finish_initialize(INIT_SUCCESS);
    let c = s.prepare_translate("日", 7).ok().unwrap();
    assert_eq!(c.mode, 7);
    assert_eq!(c.input, vec![0x93, 0xFA, 0]);
}

#[test]
fn terminate_called_once_per_session() {
    let mut s = Session::new();
    let mut terminate_calls = 0;
    s.finish_initialize(INIT_SUCCESS);
    for text in ["a", "가", "b\0", "日本"] {
        let _ = s.prepare_translate(text, DEFAULT_MODE);
        let _ = read_translation(None);
    }
    if s.teardown() {
        terminate_calls += 1;
    }
    if s.teardown() {
        terminate_calls += 1;
    }
    assert_eq!(terminate_calls, 1);
    assert_eq!(s.phase(), Phase::Terminated);
}

#[test]
fn teardown_without_initialize_still_terminates() {
    let mut s = Session::new();
    assert!(s.teardown());
    assert!(!s.teardown());
}

#[test]
fn terminated_session_refuses_calls() {
    let mut s = Session::new();
    s.finish_initialize(INIT_SUCCESS);
    s.teardown();
    assert!(matches!(s.prepare_translate("x", DEFAULT_MODE), Err(TranslationError::Terminated)));
    assert!(matches!(s.prepare_initialize("a", "b"), Err(InitError::Terminated)));
    assert!(s.finish_initialize(INIT_SUCCESS));
    assert_eq!(s.phase(), Phase::Terminated);
}
