use vidpipe::loudnorm::{find_last_value, Loudnorm, MeasurementField};

fn sample_block() -> String {
    let mut s = String::new();
    s.push_str("[Parsed_loudnorm_0 @ 0x55] \n{\n");
    s.push_str("\t\"input_i\" : \"-23.1\",\n");
    s.push_str("\t\"input_tp\" : \"-1.3\",\n");
    s.push_str("\t\"input_lra\" : \"7.2\",\n");
    s.push_str("\t\"input_thresh\" : \"-33.5\",\n");
    s.push_str("\t\"output_i\" : \"-19.0\",\n");
    s.push_str("\t\"target_offset\" : \"0.4\"\n}\n");
    s
}

#[test]
fn parses_five_exact_values() {
    let m = Loudnorm::from_analyze_data(&sample_block()).unwrap();
    assert_eq!(m.input_i, "-23.1");
    assert_eq!(m.input_lra, "7.2");
    assert_eq!(m.input_tp, "-1.3");
    assert_eq!(m.input_thresh, "-33.5");
    assert_eq!(m.target_offset, "0.4");
}

#[test]
fn keys_in_any_order() {
    let text = "\"target_offset\" : \"0.1\" \"input_thresh\" : \"-30.0\" \"input_tp\" : \"-2.0\" \"input_lra\" : \"11.0\" \"input_i\" : \"-20.5\"";
    let m = Loudnorm::from_analyze_data(text).unwrap();
    assert_eq!(m.input_i, "-20.5");
    assert_eq!(m.input_lra, "11.0");
    assert_eq!(m.input_tp, "-2.0");
    assert_eq!(m.input_thresh, "-30.0");
    assert_eq!(m.target_offset, "0.1");
}

#[test]
fn last_occurrence_wins() {
    let mut text = sample_block();
    text.push_str(&sample_block().replace("-23.1", "-24.9"));
    let m = Loudnorm::from_analyze_data(&text).unwrap();
    assert_eq!(m.input_i, "-24.9");
    assert_eq!(m.input_lra, "7.2");
}

#[test]
fn missing_input_i_named() {
    let text = sample_block().replace("input_i", "input_x");
    let e = Loudnorm::from_analyze_data(&text).unwrap_err();
    assert_eq!(e.field, MeasurementField::InputI);
}

#[test]
fn missing_input_lra_named() {
    let text = sample_block().replace("input_lra", "input_xra");
    let e = Loudnorm::from_analyze_data(&text).unwrap_err();
    assert_eq!(e.field, MeasurementField::InputLra);
}

#[test]
fn missing_input_tp_named() {
    let text = sample_block().replace("input_tp", "input_xp");
    let e = Loudnorm::from_analyze_data(&text).unwrap_err();
    assert_eq!(e.field, MeasurementField::InputTp);
}

#[test]
fn missing_input_thresh_named() {
    let text = sample_block().replace("input_thresh", "input_xhresh");
    let e = Loudnorm::from_analyze_data(&text).unwrap_err();
    assert_eq!(e.field, MeasurementField::InputThresh);
}

#[test]
fn missing_target_offset_named() {
    let text = sample_block().replace("target_offset", "target_offxet");
    let e = Loudnorm::from_analyze_data(&text).unwrap_err();
    assert_eq!(e.field, MeasurementField::TargetOffset);
}

#[test]
fn empty_text_names_first_field() {
    let e = Loudnorm::from_analyze_data("").unwrap_err();
    assert_eq!(e.field, MeasurementField::InputI);
}

#[test]
fn malformed_value_is_no_occurrence() {
    // A non-numeric value does not count; the earlier numeric one stays
    // authoritative.
    let text = "\"input_i\" : \"-23.1\" \"input_i\" : \"abc\" \"input_lra\" : \"7.2\" \"input_tp\" : \"-1.3\" \"input_thresh\" : \"-33.5\" \"target_offset\" : \"0.4\"";
    let m = Loudnorm::from_analyze_data(text).unwrap();
    assert_eq!(m.input_i, "-23.1");
}

#[test]
fn find_last_value_basics() {
    assert_eq!(find_last_value("no keys here", "input_i"), None);
    assert_eq!(
        find_last_value("\"input_i\" : \"-5.0\"", "input_i"),
        Some("-5.0".to_string())
    );
    // The dot is required: an integer-looking value is not accepted.
    assert_eq!(find_last_value("\"input_i\" : \"5\"", "input_i"), None);
}

#[test]
fn analyze_af_exact() {
    assert_eq!(
        Loudnorm::analyze_af(),
        "loudnorm=I=-19:TP=-1.0:LRA=9:print_format=json"
    );
}

#[test]
fn convert_af_exact() {
    let m = Loudnorm {
        input_i: "-23.1".to_string(),
        input_lra: "7.2".to_string(),
        input_tp: "-1.3".to_string(),
        input_thresh: "-33.5".to_string(),
        target_offset: "0.4".to_string(),
    };
    assert_eq!(
        m.convert_af(),
        "loudnorm=I=-19:TP=-1.0:LRA=9:measured_I=-23.1:measured_LRA=7.2:\
         measured_TP=-1.3:measured_thresh=-33.5:offset=0.4:\
         linear=true:print_format=summary"
    );
}
