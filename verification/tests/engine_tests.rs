use tts_studio::engine::TtsEngine;

#[test]
fn fresh_engine_reports_not_loaded() {
    let e: TtsEngine<u32> = TtsEngine::new("/models".to_string());
    assert!(!e.is_loaded());
    assert_eq!(e.load_error(), None);
    assert_eq!(e.model_path(), "/models");
    assert!(e.cached_model().is_none());
    let s = e.status();
    assert!(!s.running && !s.model_loaded);
    assert_eq!(s.mode, "qwen3");
    assert_eq!(s.message, "模型未加载，请将 Qwen3-TTS 模型文件放入 models/ 目录");
}

#[test]
fn successful_load_is_kept() {
    let mut e: TtsEngine<u32> = TtsEngine::new("/models".to_string());
    e.finish_load(Ok(7));
    assert!(e.is_loaded());
    assert_eq!(e.cached_model(), Some(Ok(&7)));
    let s = e.status();
    assert!(s.running && s.model_loaded);
    assert_eq!(s.message, "模型已加载");
}

#[test]
fn failed_load_is_kept_and_reported() {
    let mut e: TtsEngine<u32> = TtsEngine::new("/models".to_string());
    e.finish_load(Err("missing config.json".to_string()));
    assert!(!e.is_loaded());
    assert_eq!(e.load_error(), Some("模型加载失败: missing config.json"));
    assert_eq!(e.cached_model(), Some(Err("模型加载失败: missing config.json".to_string())));
    assert_eq!(e.status().message, "模型加载失败: 模型加载失败: missing config.json");
}
