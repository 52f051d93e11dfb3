use glslang_safe::error_log::GlslangErrorLog;

#[test]
fn new_decodes_both_logs() {
    let log = GlslangErrorLog::new(
        "glslang_shader_parse".to_string(),
        b"ERROR: 0:3: syntax error".to_vec(),
        b"debug".to_vec(),
    );
    assert_eq!(log.context, "glslang_shader_parse");
    assert_eq!(log.info_log, "ERROR: 0:3: syntax error");
    assert_eq!(log.debug_log, "debug");
}

#[test]
fn new_decodes_text_of_several_bytes_a_character() {
    let log = GlslangErrorLog::new(
        "ctx".to_string(),
        vec![0xC3, 0xA9, 0x20, 0xE2, 0x82, 0xAC],
        vec![0xF0, 0x9F, 0x98, 0x80],
    );
    assert_eq!(log.info_log, "\u{e9} \u{20ac}");
    assert_eq!(log.debug_log, "\u{1f600}");
    assert_eq!(log.info_log.chars().count(), 3);
}

#[test]
fn decode_refuses_bytes_that_are_no_text() {
    assert!(GlslangErrorLog::decode("c".to_string(), vec![0xFF], vec![]).is_none());
    assert!(GlslangErrorLog::decode("c".to_string(), vec![], vec![0xC3]).is_none());
    assert!(GlslangErrorLog::decode("c".to_string(), vec![0xED, 0xA0, 0x80], vec![]).is_none());
    assert!(GlslangErrorLog::decode("c".to_string(), vec![0xC0, 0x80], vec![]).is_none());
    let log = GlslangErrorLog::decode("c".to_string(), vec![], vec![]).unwrap();
    assert_eq!(log.context, "c");
    assert_eq!(log.info_log, "");
    assert_eq!(log.debug_log, "");
}

#[test]
fn message_puts_each_field_behind_its_label() {
    let log = GlslangErrorLog {
        context: "glslang_program_link".to_string(),
        info_log: "info".to_string(),
        debug_log: "debug".to_string(),
    };
    assert_eq!(log.message(), "context: glslang_program_linkinfo_log: infodebug_log: debug");
    let empty = GlslangErrorLog {
        context: String::new(),
        info_log: String::new(),
        debug_log: String::new(),
    };
    assert_eq!(empty.message(), "context: info_log: debug_log: ");
}
