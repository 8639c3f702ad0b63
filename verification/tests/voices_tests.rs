use tts_studio::voices::{
    builtin_voices, choose_voice, clone_failed, clone_succeeded, cloned_voice_meta, custom_voice, fallback_voices,
    is_profile_file, output_file_name, profile_file_name, reference_audio_file_name, speech_result, task_id,
    voice_profile_id, voices_payload, custom_voice_from_file, local_audio_path_of, parse_profile_fields,
    recording_to_remove, json_str_field, json_str_items, CloneVoicePayload, ProfileFields, SpeechOutcome, VoiceChoice,
};

#[test]
fn fallback_list_when_no_model() {
    let v = fallback_voices();
    let ids: Vec<&str> = v.iter().map(|p| p.id.as_str()).collect();
    assert_eq!(ids, vec!["female_01", "female_02", "male_01", "male_02", "narrator_01"]);
    assert_eq!(v[0].name, "温柔女声");
    assert_eq!(v[0].description.as_deref(), Some("适合客服、旁白和引导音。"));
    assert_eq!(v[0].language, vec!["zh".to_string()]);
    assert_eq!(v[4].language, vec!["zh".to_string(), "en".to_string()]);
    assert!(v.iter().all(|p| p.voice_type == "builtin" && p.preview_audio.is_none()));
}

#[test]
fn builtin_voices_follow_model_speakers() {
    let v = builtin_voices(vec!["Vivian".to_string(), "Ryan".to_string()]);
    assert_eq!(v.len(), 2);
    assert_eq!(v[1].id, "Ryan");
    assert_eq!(v[1].name, "Ryan");
    assert_eq!(v[1].voice_type, "builtin");
    assert_eq!(v[1].language, vec!["zh".to_string(), "en".to_string()]);
    assert_eq!(v[1].description.as_deref(), Some("Qwen3 TTS 内置音色"));
    assert!(builtin_voices(vec![]).is_empty());
}

#[test]
fn payload_picks_speakers_or_fallback() {
    let p = voices_payload(None, vec![]);
    assert_eq!(p.builtin_voices.len(), 5);
    assert!(p.custom_voices.is_empty());
    let p = voices_payload(Some(vec![]), vec![]);
    assert!(p.builtin_voices.is_empty());
}

#[test]
fn custom_voice_from_fields() {
    let f = ProfileFields {
        id: Some("voice-user-1".to_string()),
        name: None,
        language: Some(vec![Some("zh".to_string()), None, Some("en".to_string())]),
        preview_audio: Some("/tmp/a.wav".to_string()),
        description: None,
        local_audio_path: None,
    };
    let p = custom_voice(&f);
    assert_eq!(p.id, "voice-user-1");
    assert_eq!(p.name, "");
    assert_eq!(p.voice_type, "custom");
    assert_eq!(p.language, vec!["zh".to_string(), "en".to_string()]);
    assert_eq!(p.preview_audio.as_deref(), Some("/tmp/a.wav"));
    assert_eq!(p.description, None);
    let empty = ProfileFields { id: None, name: None, language: None, preview_audio: None, description: None, local_audio_path: None };
    assert!(custom_voice(&empty).language.is_empty());
}

#[test]
fn profile_files_and_names() {
    assert!(is_profile_file(Some("json")));
    assert!(!is_profile_file(Some("wav")));
    assert!(!is_profile_file(None));
    assert_eq!(profile_file_name("voice-user-5"), "voice-user-5.json");
}

#[test]
fn speech_request_names() {
    assert_eq!(task_id(1725029869123), "tts-1725029869123");
    assert_eq!(output_file_name("tts-9"), "tts-9.wav");
}

#[test]
fn voice_choice() {
    match choose_voice("voice-user-1", true, Some("/v/a.wav".to_string())) {
        VoiceChoice::Clone { reference_audio } => assert_eq!(reference_audio, "/v/a.wav"),
        other => panic!("unexpected {:?}", other),
    }
    match choose_voice("voice-user-1", true, None) {
        VoiceChoice::Speaker { name } => assert_eq!(name, "female_01"),
        other => panic!("unexpected {:?}", other),
    }
    match choose_voice("Ryan", false, Some("/ignored".to_string())) {
        VoiceChoice::Speaker { name } => assert_eq!(name, "Ryan"),
        other => panic!("unexpected {:?}", other),
    }
}

#[test]
fn speech_results() {
    let ok = speech_result("tts-1".to_string(), SpeechOutcome::Written("/o/tts-1.wav".to_string()), 12);
    assert_eq!(ok.status, "success");
    assert_eq!(ok.audio_path.as_deref(), Some("/o/tts-1.wav"));
    assert_eq!(ok.error, None);
    assert_eq!(ok.duration_ms, 12);
    let e = speech_result("t".to_string(), SpeechOutcome::ModelUnavailable("模型加载失败: x".to_string()), 1);
    assert_eq!((e.status.as_str(), e.error.as_deref()), ("failed", Some("模型加载失败: x")));
    let e = speech_result("t".to_string(), SpeechOutcome::SynthesisFailed("oom".to_string()), 1);
    assert_eq!(e.error.as_deref(), Some("合成失败: oom"));
    let e = speech_result("t".to_string(), SpeechOutcome::NoWaveform, 1);
    assert_eq!(e.error.as_deref(), Some("生成结果为空"));
    let e = speech_result("t".to_string(), SpeechOutcome::WriteFailed("disk".to_string()), 1);
    assert_eq!(e.error.as_deref(), Some("写入音频文件失败: disk"));
    assert_eq!(e.audio_path, None);
    assert_eq!(e.task_id, "t");
}

#[test]
fn clone_voice_naming_and_results() {
    assert_eq!(voice_profile_id(42), "voice-user-42");
    assert_eq!(reference_audio_file_name("voice-user-42", Some("mp3")), "voice-user-42.mp3");
    assert_eq!(reference_audio_file_name("voice-user-42", None), "voice-user-42.wav");
    let f = clone_failed("voice-user-42".to_string(), "No such file");
    assert_eq!(f.status, "failed: No such file");
    assert_eq!(f.voice_profile_id, "voice-user-42");
    assert_eq!(clone_succeeded("v".to_string()).status, "success");
}

#[test]
fn cloned_meta_reads_back_as_custom_voice() {
    let payload = CloneVoicePayload { name: "我的声音".to_string(), audio_path: "/in/rec.wav".to_string(), language: "zh".to_string() };
    let m = cloned_voice_meta("voice-user-7", &payload, "rec.wav", "/p/voice-user-7.wav");
    assert_eq!(m.id, "voice-user-7");
    assert_eq!(m.name, "我的声音");
    assert_eq!(m.voice_type, "custom");
    assert_eq!(m.language, vec!["zh".to_string()]);
    assert_eq!(m.description, "参考音频: rec.wav");
    assert_eq!(m.preview_audio, "/p/voice-user-7.wav");
    assert_eq!(m.local_audio_path, "/p/voice-user-7.wav");
    let fields = ProfileFields {
        id: Some(m.id.clone()),
        name: Some(m.name.clone()),
        language: Some(m.language.iter().map(|l| Some(l.clone())).collect()),
        preview_audio: Some(m.preview_audio.clone()),
        description: Some(m.description.clone()),
        local_audio_path: Some(m.local_audio_path.clone()),
    };
    let p = custom_voice(&fields);
    assert_eq!(p.id, m.id);
    assert_eq!(p.name, m.name);
    assert_eq!(p.language, m.language);
    assert_eq!(p.preview_audio.as_deref(), Some(m.preview_audio.as_str()));
    assert_eq!(p.description.as_deref(), Some(m.description.as_str()));
}

#[test]
fn distinct_times_give_distinct_ids() {
    assert_ne!(task_id(1), task_id(10));
    assert_ne!(voice_profile_id(12), voice_profile_id(120));
    assert_eq!(task_id(0), "tts-0");
}

#[test]
fn metadata_text_parses_into_fields() {
    let text = r#"{"id": "voice-user-3", "name": 5, "language": ["zh", 1, "en"], "description": "参考音频: a.wav", "local_audio_path": "/p/a.wav"}"#;
    let f = parse_profile_fields(text).unwrap();
    assert_eq!(f.id.as_deref(), Some("voice-user-3"));
    assert_eq!(f.name, None);
    assert_eq!(f.language, Some(vec![Some("zh".to_string()), None, Some("en".to_string())]));
    assert_eq!(f.preview_audio, None);
    assert_eq!(f.description.as_deref(), Some("参考音频: a.wav"));
    assert_eq!(f.local_audio_path.as_deref(), Some("/p/a.wav"));
    assert!(parse_profile_fields("not json").is_err());
    let other = parse_profile_fields("42").unwrap();
    assert_eq!(other.id, None);
    assert_eq!(other.language, None);
}

#[test]
fn custom_voice_read_from_a_file() {
    let text = r#"{"id": "voice-user-3", "name": "我的", "language": ["zh"], "preview_audio": "/p/a.wav"}"#;
    let p = custom_voice_from_file(Some("json"), text).unwrap();
    assert_eq!(p.id, "voice-user-3");
    assert_eq!(p.name, "我的");
    assert_eq!(p.voice_type, "custom");
    assert_eq!(p.language, vec!["zh".to_string()]);
    assert_eq!(p.preview_audio.as_deref(), Some("/p/a.wav"));
    assert!(custom_voice_from_file(Some("wav"), text).is_none());
    assert!(custom_voice_from_file(Some("json"), "{broken").is_none());
    let bare = custom_voice_from_file(Some("json"), "[]").unwrap();
    assert_eq!(bare.id, "");
    assert!(bare.language.is_empty());
}

#[test]
fn recording_named_by_metadata() {
    assert_eq!(local_audio_path_of(r#"{"local_audio_path": "/p/x.mp3"}"#).as_deref(), Some("/p/x.mp3"));
    assert_eq!(local_audio_path_of(r#"{"local_audio_path": 3}"#), None);
    assert_eq!(local_audio_path_of("oops"), None);
    assert_eq!(recording_to_remove(r#"{"local_audio_path": "/p/x.mp3"}"#), Ok(Some("/p/x.mp3".to_string())));
    assert_eq!(recording_to_remove("{}"), Ok(None));
    let err = recording_to_remove("oops").unwrap_err();
    assert_eq!(err, serde_json::from_str::<serde_json::Value>("oops").unwrap_err().to_string());
}

#[test]
fn json_reads_by_key() {
    let text = r#"{"a": "x", "b": [1, "y"], "c": 2}"#;
    assert_eq!(json_str_field(text, "a"), Ok(Some("x".to_string())));
    assert_eq!(json_str_field(text, "c"), Ok(None));
    assert_eq!(json_str_field(text, "zz"), Ok(None));
    assert_eq!(json_str_items(text, "b"), Ok(Some(vec![None, Some("y".to_string())])));
    assert_eq!(json_str_items(text, "a"), Ok(None));
    assert!(json_str_field("{", "a").is_err());
    assert!(json_str_items("{", "a").is_err());
}
