use vidpipe::pipeline::{build_manifest, Action, Pipeline, PipelineError, Stage};
use vidpipe::types::{ACodec, ConfigError, Container, Operation, Quality, VCodec};

fn base_op() -> Operation {
    Operation {
        cpulimit: 50,
        inputs: vec!["in.mp4".to_string()],
        transpose: None,
        scale: (1280, 720),
        loudnorm: false,
        video_quality: Quality::High,
        video_fps: (30, 1),
        video_codec: VCodec::Vp9,
        audio_quality: Quality::High,
        audio_codec: ACodec::Opus,
        strip_metadata: false,
        title: "My Video".to_string(),
        container: Container::Webm,
    }
}

fn strs(args: &[String]) -> Vec<&str> {
    args.iter().map(|s| s.as_str()).collect()
}

fn measurement_text() -> String {
    let mut s = String::new();
    s.push_str("\"input_i\" : \"-23.1\"\n");
    s.push_str("\"input_lra\" : \"7.2\"\n");
    s.push_str("\"input_tp\" : \"-1.3\"\n");
    s.push_str("\"input_thresh\" : \"-33.5\"\n");
    s.push_str("\"target_offset\" : \"0.4\"\n");
    s
}

#[test]
fn validate_rejects_bad_operations() {
    let mut op = base_op();
    op.inputs = vec![];
    assert_eq!(op.validate(), Err(ConfigError::NoInputs));

    let mut op = base_op();
    op.scale = (0, 720);
    assert_eq!(op.validate(), Err(ConfigError::ZeroWidth));

    let mut op = base_op();
    op.scale = (1280, 0);
    assert_eq!(op.validate(), Err(ConfigError::ZeroHeight));

    let mut op = base_op();
    op.video_fps = (30, 0);
    assert_eq!(op.validate(), Err(ConfigError::ZeroFpsDenominator));

    let mut op = base_op();
    op.scale = (65535, 65535);
    op.video_fps = (4_000_000_000, 1);
    assert_eq!(op.validate(), Err(ConfigError::FrameRateOverflow));

    assert_eq!(base_op().validate(), Ok(()));
}

#[test]
fn single_input_without_loudnorm_skips_concat_and_measure() {
    let mut p = Pipeline::new(base_op()).unwrap();

    let a1 = p.advance(true, "");
    let (input1, args1) = match a1 {
        Action::Pass1 { input, args } => (input, args),
        other => panic!("expected first pass, got {:?}", other),
    };
    assert_eq!(input1, "in.mp4");
    assert_eq!(
        strs(&args1),
        vec![
            "-y", "-i", "in.mp4", "-vf", "scale=1280x720,fps=fps=30/1", "-c:a", "libopus",
            "-b:a", "64k", "-c:v", "libvpx-vp9", "-quality", "good", "-b:v", "1036800",
            "-minrate", "518400", "-maxrate", "1503360", "-tile-columns", "2", "-g", "240",
            "-threads", "16", "-crf", "31", "-pass", "1", "-speed", "4", "-f", "null", "-",
        ]
    );
    // The first pass never carries an audio filter chain.
    assert!(!args1.iter().any(|a| a == "-af"));

    let a2 = p.advance(true, "");
    let (input2, args2) = match a2 {
        Action::Pass2 { input, args } => (input, args),
        other => panic!("expected second pass, got {:?}", other),
    };
    assert_eq!(input2, "in.mp4");
    // Without loudness normalization the second pass has no audio filter
    // chain either, and no measurement was ever requested.
    assert!(!args2.iter().any(|a| a == "-af"));
    assert_eq!(args2.last().unwrap(), "My_Video.webm");
    assert!(args2.contains(&"-pass".to_string()));
    assert!(args2.contains(&"2".to_string()));
    // 1280 >= 1024, so the slower second pass runs at speed 2.
    let spd = args2.iter().position(|a| a == "-speed").unwrap();
    assert_eq!(args2[spd + 1], "2");

    let a3 = p.advance(true, "");
    match a3 {
        Action::Complete { output } => assert_eq!(output, "My_Video.webm"),
        other => panic!("expected completion, got {:?}", other),
    }
    assert!(p.is_terminal());
}

#[test]
fn full_run_with_concat_loudnorm_and_strip() {
    let mut op = base_op();
    op.inputs = vec!["b.mp4".to_string(), "a.mp4".to_string()];
    op.loudnorm = true;
    op.strip_metadata = true;
    op.title = "x/y z".to_string();
    op.container = Container::Mp4;
    let mut p = Pipeline::new(op).unwrap();

    let a1 = p.advance(true, "");
    match a1 {
        Action::Concat { manifest, args } => {
            assert_eq!(manifest, "file 'b.mp4'\nfile 'a.mp4'\n");
            assert_eq!(
                strs(&args),
                vec!["-f", "concat", "-i", "concat.txt", "-c", "copy", "concat.mp4"]
            );
        }
        other => panic!("expected concatenation, got {:?}", other),
    }

    let a2 = p.advance(true, "");
    match a2 {
        Action::Measure { input, args } => {
            assert_eq!(input, "concat.mp4");
            assert_eq!(
                strs(&args),
                vec![
                    "-y", "-i", "concat.mp4", "-af",
                    "loudnorm=I=-19:TP=-1.0:LRA=9:print_format=json", "-f", "null", "-",
                ]
            );
        }
        other => panic!("expected measurement, got {:?}", other),
    }

    let a3 = p.advance(true, &measurement_text());
    let args1 = match a3 {
        Action::Pass1 { input, args } => {
            assert_eq!(input, "concat.mp4");
            args
        }
        other => panic!("expected first pass, got {:?}", other),
    };
    // Pass 1 omits the audio filter chain even under loudness
    // normalization.
    assert!(!args1.iter().any(|a| a == "-af"));

    let a4 = p.advance(true, "");
    let args2 = match a4 {
        Action::Pass2 { input, args } => {
            assert_eq!(input, "concat.mp4");
            args
        }
        other => panic!("expected second pass, got {:?}", other),
    };
    let af = args2.iter().position(|a| a == "-af").unwrap();
    assert_eq!(
        args2[af + 1],
        "loudnorm=I=-19:TP=-1.0:LRA=9:measured_I=-23.1:measured_LRA=7.2:\
         measured_TP=-1.3:measured_thresh=-33.5:offset=0.4:\
         linear=true:print_format=summary"
    );
    assert_eq!(args2.last().unwrap(), "x-y_z.enc.mp4");

    // The two passes embed the same parameter set.
    let rate = |args: &Vec<String>, flag: &str| {
        let i = args.iter().position(|a| a == flag).unwrap();
        args[i + 1].clone()
    };
    for flag in ["-b:v", "-minrate", "-maxrate", "-tile-columns", "-crf"] {
        assert_eq!(rate(&args1, flag), rate(&args2, flag));
    }

    let a5 = p.advance(true, "");
    match a5 {
        Action::Strip { input, args } => {
            assert_eq!(input, "x-y_z.enc.mp4");
            assert_eq!(
                strs(&args),
                vec![
                    "-y", "-i", "x-y_z.enc.mp4", "-map_metadata", "-1", "-metadata",
                    "title=x/y z", "-c:v", "copy", "-c:a", "copy", "x-y_z.mp4",
                ]
            );
        }
        other => panic!("expected metadata strip, got {:?}", other),
    }

    let a6 = p.advance(true, "");
    match a6 {
        Action::Complete { output } => assert_eq!(output, "x-y_z.mp4"),
        other => panic!("expected completion, got {:?}", other),
    }
    assert!(p.is_terminal());
}

#[test]
fn copy_codecs_omit_filters_and_parameters() {
    let mut op = base_op();
    op.video_codec = VCodec::Copy;
    op.audio_codec = ACodec::Copy;
    let mut p = Pipeline::new(op).unwrap();
    let a = p.advance(true, "");
    let args = match a {
        Action::Pass1 { args, .. } => args,
        other => panic!("expected first pass, got {:?}", other),
    };
    assert!(!args.iter().any(|a| a == "-vf"));
    assert!(!args.iter().any(|a| a == "-af"));
    assert!(!args.iter().any(|a| a == "-b:v"));
    let cv = args.iter().position(|a| a == "-c:v").unwrap();
    assert_eq!(args[cv + 1], "copy");
    let ca = args.iter().position(|a| a == "-c:a").unwrap();
    assert_eq!(args[ca + 1], "copy");
}

#[test]
fn transpose_precedes_scale_and_fps() {
    let mut op = base_op();
    op.transpose = Some(1);
    let mut p = Pipeline::new(op).unwrap();
    let a = p.advance(true, "");
    let args = match a {
        Action::Pass1 { args, .. } => args,
        other => panic!("expected first pass, got {:?}", other),
    };
    let vf = args.iter().position(|a| a == "-vf").unwrap();
    assert_eq!(args[vf + 1], "transpose=1,scale=1280x720,fps=fps=30/1");
}

#[test]
fn failed_invocation_fails_pipeline_with_diagnostics() {
    let mut op = base_op();
    op.loudnorm = true;
    let mut p = Pipeline::new(op).unwrap();
    let a1 = p.advance(true, "");
    assert!(matches!(a1, Action::Measure { .. }));
    let a2 = p.advance(false, "boom: no such file");
    match a2 {
        Action::Fail {
            error: PipelineError::ExternalProcess { stage, diagnostics },
        } => {
            assert_eq!(stage, Stage::Measuring);
            assert_eq!(diagnostics, "boom: no such file");
        }
        other => panic!("expected failure, got {:?}", other),
    }
    assert!(p.is_terminal());
}

#[test]
fn unparsable_measurement_fails_pipeline() {
    let mut op = base_op();
    op.loudnorm = true;
    let mut p = Pipeline::new(op).unwrap();
    let _ = p.advance(true, "");
    let a = p.advance(true, "no measurement block here");
    match a {
        Action::Fail {
            error: PipelineError::MeasurementParse { error },
        } => {
            assert_eq!(
                error.field,
                vidpipe::loudnorm::MeasurementField::InputI
            );
        }
        other => panic!("expected parse failure, got {:?}", other),
    }
    assert!(p.is_terminal());
}

#[test]
fn manifest_lists_inputs_in_order() {
    let inputs = vec!["1.mp4".to_string(), "2.mp4".to_string(), "3.mp4".to_string()];
    assert_eq!(
        build_manifest(&inputs),
        "file '1.mp4'\nfile '2.mp4'\nfile '3.mp4'\n"
    );
    assert_eq!(build_manifest(&vec![]), "");
}

#[test]
fn speed_one_below_1024_width() {
    let mut op = base_op();
    op.scale = (640, 480);
    let mut p = Pipeline::new(op).unwrap();
    let _ = p.advance(true, "");
    let a = p.advance(true, "");
    let args = match a {
        Action::Pass2 { args, .. } => args,
        other => panic!("expected second pass, got {:?}", other),
    };
    let spd = args.iter().position(|a| a == "-speed").unwrap();
    assert_eq!(args[spd + 1], "1");
}
