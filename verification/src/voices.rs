//! Voices: the built-in speakers, the voices users clone from a reference
//! recording, and what a speech request comes to.
use vstd::prelude::*;

use crate::text::{concat2, concat3, decimal, decimal_string, lemma_decimal_injective, str_eq, texts};

verus! {

/// A voice offered to the user.
#[derive(Debug)]
pub struct VoiceProfile {
    pub id: String,
    pub name: String,
    pub voice_type: String,
    pub language: Vec<String>,
    pub preview_audio: Option<String>,
    pub description: Option<String>,
}

/// The voices offered: the built-in ones and those the user cloned.
#[derive(Debug)]
pub struct VoicesPayload {
    pub builtin_voices: Vec<VoiceProfile>,
    pub custom_voices: Vec<VoiceProfile>,
}

/// What a speech request came to.
#[derive(Debug)]
pub struct GenerateSpeechResult {
    pub task_id: String,
    pub status: String,
    pub audio_path: Option<String>,
    pub error: Option<String>,
    pub duration_ms: u128,
}

/// What a request to clone a voice came to.
#[derive(Debug)]
pub struct CloneVoiceResult {
    pub voice_profile_id: String,
    pub status: String,
}

/// A request to clone a voice from a reference recording.
#[derive(Debug)]
pub struct CloneVoicePayload {
    pub name: String,
    pub audio_path: String,
    pub language: String,
}

/// What a cloned voice's metadata file holds.
#[derive(Debug)]
pub struct ClonedVoiceMeta {
    pub id: String,
    pub name: String,
    pub voice_type: String,
    pub language: Vec<String>,
    pub description: String,
    pub preview_audio: String,
    pub local_audio_path: String,
}

/// The fields of a voice metadata file, as read back: each is `None` when
/// the file lacks it or holds something other than a string there (or the
/// file holds no JSON object at all). For the
/// languages, `None` when there is no array; inside it, `None` for each
/// element that is not a string.
#[derive(Debug)]
pub struct ProfileFields {
    pub id: Option<String>,
    pub name: Option<String>,
    pub language: Option<Vec<Option<String>>>,
    pub preview_audio: Option<String>,
    pub description: Option<String>,
    pub local_audio_path: Option<String>,
}

/// The voice to synthesize with.
#[derive(Debug)]
pub enum VoiceChoice {
    /// Clone the voice of the reference recording at this path.
    Clone { reference_audio: String },
    /// Use the model's speaker of this name.
    Speaker { name: String },
}

/// How a speech request ended.
#[derive(Debug)]
pub enum SpeechOutcome {
    /// The model could not be had; the message says why.
    ModelUnavailable(String),
    /// The model failed to synthesize; the detail says why.
    SynthesisFailed(String),
    /// The model gave back no waveform.
    NoWaveform,
    /// The audio could not be written; the detail says why.
    WriteFailed(String),
    /// The audio was written to this path.
    Written(String),
}

/// The characters of each string that `v` holds, in order, skipping the `None`s.
pub open spec fn present_texts(v: Seq<Option<String>>) -> Seq<Seq<char>>
    decreases v.len(),
{
    if v.len() == 0 {
        Seq::empty()
    } else {
        let rest = present_texts(v.drop_last());
        match v.last() {
            Some(s) => rest.push(s@),
            None => rest,
        }
    }
}

/// The characters of an optional string.
pub open spec fn opt_text(o: Option<String>) -> Option<Seq<char>> {
    match o {
        Some(s) => Some(s@),
        None => None,
    }
}

/// The description of every built-in speaker of the model.
pub open spec fn builtin_description() -> Seq<char> {
    "Qwen3 TTS 内置音色"@
}

/// `p` is the built-in voice of the model's speaker `speaker`.
pub open spec fn is_builtin_voice(p: VoiceProfile, speaker: Seq<char>) -> bool {
    &&& p.id@ == speaker
    &&& p.name@ == speaker
    &&& p.voice_type@ == "builtin"@
    &&& texts(p.language@) == seq!["zh"@, "en"@]
    &&& p.preview_audio is None
    &&& opt_text(p.description) == Some(builtin_description())
}

/// `p` is a built-in voice offered while no model is loaded.
pub open spec fn is_fallback_voice(
    p: VoiceProfile,
    id: Seq<char>,
    name: Seq<char>,
    langs: Seq<Seq<char>>,
    description: Seq<char>,
) -> bool {
    &&& p.id@ == id
    &&& p.name@ == name
    &&& p.voice_type@ == "builtin"@
    &&& texts(p.language@) == langs
    &&& p.preview_audio is None
    &&& opt_text(p.description) == Some(description)
}

/// `v` is the list of voices offered while no model is loaded.
pub open spec fn is_fallback_list(v: Seq<VoiceProfile>) -> bool {
    &&& v.len() == 5
    &&& is_fallback_voice(v[0], "female_01"@, "温柔女声"@, seq!["zh"@], "适合客服、旁白和引导音。"@)
    &&& is_fallback_voice(v[1], "female_02"@, "明亮女声"@, seq!["zh"@], "适合短视频和内容播报。"@)
    &&& is_fallback_voice(v[2], "male_01"@, "沉稳男声"@, seq!["zh"@], "适合解说和资讯播报。"@)
    &&& is_fallback_voice(v[3], "male_02"@, "清晰男声"@, seq!["zh"@], "适合教程和产品介绍。"@)
    &&& is_fallback_voice(
        v[4],
        "narrator_01"@,
        "中性旁白"@,
        seq!["zh"@, "en"@],
        "适合故事和说明文案。"@,
    )
}

/// `p` is the custom voice that a metadata file with fields `f` describes.
pub open spec fn is_custom_voice(p: VoiceProfile, f: ProfileFields) -> bool {
    &&& p.id@ == (match f.id {
        Some(s) => s@,
        None => Seq::empty(),
    })
    &&& p.name@ == (match f.name {
        Some(s) => s@,
        None => Seq::empty(),
    })
    &&& p.voice_type@ == "custom"@
    &&& texts(p.language@) == (match f.language {
        Some(v) => present_texts(v@),
        None => Seq::empty(),
    })
    &&& opt_text(p.preview_audio) == opt_text(f.preview_audio)
    &&& opt_text(p.description) == opt_text(f.description)
}

/// The languages `["zh"]`.
fn languages_zh() -> (v: Vec<String>)
    ensures
        texts(v@) == seq!["zh"@],
{
    let mut v: Vec<String> = Vec::new();
    v.push("zh".to_owned());
    assert(texts(v@) =~= seq!["zh"@]);
    v
}

/// The languages `["zh", "en"]`.
fn languages_zh_en() -> (v: Vec<String>)
    ensures
        texts(v@) == seq!["zh"@, "en"@],
{
    let mut v: Vec<String> = Vec::new();
    v.push("zh".to_owned());
    v.push("en".to_owned());
    assert(texts(v@) =~= seq!["zh"@, "en"@]);
    v
}

fn fallback_voice(id: &str, name: &str, language: Vec<String>, description: &str) -> (p: VoiceProfile)
    ensures
        is_fallback_voice(p, id@, name@, texts(language@), description@),
{
    proof {
        reveal_strlit("builtin");
    }
    VoiceProfile {
        id: id.to_owned(),
        name: name.to_owned(),
        voice_type: "builtin".to_owned(),
        language,
        preview_audio: None,
        description: Some(description.to_owned()),
    }
}

/// The built-in voices offered while no model is loaded.
pub fn fallback_voices() -> (v: Vec<VoiceProfile>)
    ensures
        is_fallback_list(v@),
{
    let mut v: Vec<VoiceProfile> = Vec::new();
    v.push(fallback_voice("female_01", "温柔女声", languages_zh(), "适合客服、旁白和引导音。"));
    v.push(fallback_voice("female_02", "明亮女声", languages_zh(), "适合短视频和内容播报。"));
    v.push(fallback_voice("male_01", "沉稳男声", languages_zh(), "适合解说和资讯播报。"));
    v.push(fallback_voice("male_02", "清晰男声", languages_zh(), "适合教程和产品介绍。"));
    v.push(fallback_voice("narrator_01", "中性旁白", languages_zh_en(), "适合故事和说明文案。"));
    v
}

/// The built-in voices of a loaded model whose speakers are `speakers`.
pub fn builtin_voices(speakers: Vec<String>) -> (v: Vec<VoiceProfile>)
    ensures
        v@.len() == speakers@.len(),
        forall|i: int| 0 <= i < v@.len() ==> is_builtin_voice(#[trigger] v@[i], speakers@[i]@),
{
    let mut v: Vec<VoiceProfile> = Vec::new();
    let mut i: usize = 0;
    while i < speakers.len()
        invariant
            i <= speakers@.len(),
            v@.len() == i,
            forall|j: int| 0 <= j < i ==> is_builtin_voice(#[trigger] v@[j], speakers@[j]@),
        decreases speakers@.len() - i,
    {
        proof {
            reveal_strlit("builtin");
            reveal_strlit("Qwen3 TTS 内置音色");
        }
        let name = speakers[i].clone();
        let language = languages_zh_en();
        v.push(
            VoiceProfile {
                id: name.clone(),
                name,
                voice_type: "builtin".to_owned(),
                language,
                preview_audio: None,
                description: Some("Qwen3 TTS 内置音色".to_owned()),
            },
        );
        i = i + 1;
    }
    v
}

/// The strings among `items`, in order.
fn present_strings(items: &Vec<Option<String>>) -> (v: Vec<String>)
    ensures
        texts(v@) == present_texts(items@),
{
    let mut v: Vec<String> = Vec::new();
    let mut i: usize = 0;
    while i < items.len()
        invariant
            i <= items@.len(),
            texts(v@) == present_texts(items@.subrange(0, i as int)),
        decreases items@.len() - i,
    {
        let ghost before = v@;
        match &items[i] {
            Some(s) => {
                v.push(s.clone());
            },
            None => {},
        }
        assert(items@.subrange(0, i + 1).drop_last() =~= items@.subrange(0, i as int));
        i = i + 1;
        assert(texts(v@) =~= present_texts(items@.subrange(0, i as int)));
    }
    assert(items@.subrange(0, i as int) =~= items@);
    v
}

fn clone_opt(o: &Option<String>) -> (r: Option<String>)
    ensures
        r == *o,
{
    match o {
        Some(s) => Some(s.clone()),
        None => None,
    }
}

/// The custom voice that a metadata file with fields `fields` describes.
pub fn custom_voice(fields: &ProfileFields) -> (p: VoiceProfile)
    ensures
        is_custom_voice(p, *fields),
{
    proof {
        reveal_strlit("custom");
    }
    let id = match &fields.id {
        Some(s) => s.clone(),
        None => String::new(),
    };
    let name = match &fields.name {
        Some(s) => s.clone(),
        None => String::new(),
    };
    let language = match &fields.language {
        Some(items) => present_strings(items),
        None => Vec::new(),
    };
    assert(language@.len() == 0 ==> texts(language@) =~= Seq::<Seq<char>>::empty());
    VoiceProfile {
        id,
        name,
        voice_type: "custom".to_owned(),
        language,
        preview_audio: clone_opt(&fields.preview_audio),
        description: clone_opt(&fields.description),
    }
}

/// The voices offered: the speakers of the loaded model, or the fallback
/// list when no model could be had, followed by the user's cloned voices.
pub fn voices_payload(speakers: Option<Vec<String>>, custom_voices: Vec<VoiceProfile>) -> (p:
    VoicesPayload)
    ensures
        p.custom_voices == custom_voices,
        match speakers {
            Some(s) => p.builtin_voices@.len() == s@.len() && forall|i: int|
                0 <= i < s@.len() ==> is_builtin_voice(#[trigger] p.builtin_voices@[i], s@[i]@),
            None => is_fallback_list(p.builtin_voices@),
        },
{
    let builtin_voices = match speakers {
        Some(s) => builtin_voices(s),
        None => fallback_voices(),
    };
    VoicesPayload { builtin_voices, custom_voices }
}

/// What `serde_json` reads at `key` in the JSON text `content`: the string
/// there, `None` when there is none (or the text is not an object), or the
/// text of the parse error.
pub uninterp spec fn json_str_at(content: Seq<char>, key: Seq<char>) -> Result<Option<Seq<char>>, Seq<char>>;

/// What `serde_json` reads at `key` in the JSON text `content` as an array:
/// each element's string (`None` for an element that is not one), `None`
/// when there is no array there, or the text of the parse error.
pub uninterp spec fn json_items_at(content: Seq<char>, key: Seq<char>) -> Result<
    Option<Seq<Option<Seq<char>>>>,
    Seq<char>,
>;

/// The characters of each optional string in `v`.
pub open spec fn item_texts(v: Seq<Option<String>>) -> Seq<Option<Seq<char>>> {
    v.map_values(|o: Option<String>| opt_text(o))
}

/// `r` is `g`, taken by the characters of its strings.
pub open spec fn str_read_agrees(r: Result<Option<String>, String>, g: Result<Option<Seq<char>>, Seq<char>>) -> bool {
    match (r, g) {
        (Ok(a), Ok(b)) => opt_text(a) == b,
        (Err(e), Err(m)) => e@ == m,
        _ => false,
    }
}

/// `r` is `g`, taken by the characters of its strings.
pub open spec fn items_read_agrees(
    r: Result<Option<Vec<Option<String>>>, String>,
    g: Result<Option<Seq<Option<Seq<char>>>>, Seq<char>>,
) -> bool {
    match (r, g) {
        (Ok(Some(v)), Ok(Some(w))) => item_texts(v@) == w,
        (Ok(None), Ok(None)) => true,
        (Err(e), Err(m)) => e@ == m,
        _ => false,
    }
}

/// Reads the string at `key` in the JSON text `content`.
///
/// Calls `serde_json::from_str` into a `serde_json::Value`, then
/// `Value::get(key)` and `Value::as_str`; a parse error gives its text. The
/// outcome is named (`json_str_at`), not stated.
#[verifier::external_body]
pub fn json_str_field(content: &str, key: &str) -> (r: Result<Option<String>, String>)
    ensures
        str_read_agrees(r, json_str_at(content@, key@)),
{
    let value: serde_json::Value = serde_json::from_str(content).map_err(|e| e.to_string())?;
    Ok(value.get(key).and_then(|v| v.as_str()).map(|s| s.to_owned()))
}

/// Reads the array of strings at `key` in the JSON text `content`.
///
/// Calls `serde_json::from_str` into a `serde_json::Value`, then
/// `Value::get(key)`, `Value::as_array` and, for each element,
/// `Value::as_str`; a parse error gives its text. The outcome is named
/// (`json_items_at`), not stated.
#[verifier::external_body]
pub fn json_str_items(content: &str, key: &str) -> (r: Result<Option<Vec<Option<String>>>, String>)
    ensures
        items_read_agrees(r, json_items_at(content@, key@)),
{
    let value: serde_json::Value = serde_json::from_str(content).map_err(|e| e.to_string())?;
    Ok(value.get(key).and_then(|v| v.as_array()).map(|items| items.iter().map(|v| v.as_str().map(|s| s.to_owned())).collect()))
}

/// The first error met reading the fields of a voice metadata file with
/// text `content`, in the order `parse_profile_fields` reads them.
pub open spec fn read_error(c: Seq<char>) -> Option<Seq<char>> {
    if json_str_at(c, "id"@) is Err {
        Some(json_str_at(c, "id"@)->Err_0)
    } else if json_str_at(c, "name"@) is Err {
        Some(json_str_at(c, "name"@)->Err_0)
    } else if json_items_at(c, "language"@) is Err {
        Some(json_items_at(c, "language"@)->Err_0)
    } else if json_str_at(c, "preview_audio"@) is Err {
        Some(json_str_at(c, "preview_audio"@)->Err_0)
    } else if json_str_at(c, "description"@) is Err {
        Some(json_str_at(c, "description"@)->Err_0)
    } else if json_str_at(c, "local_audio_path"@) is Err {
        Some(json_str_at(c, "local_audio_path"@)->Err_0)
    } else {
        None
    }
}

/// `f` holds the fields of a voice metadata file with text `c`: its
/// `id`, `name`, `preview_audio`, `description` and `local_audio_path`
/// strings and its `language` array.
pub open spec fn fields_read(f: ProfileFields, c: Seq<char>) -> bool {
    &&& json_str_at(c, "id"@) == Ok::<Option<Seq<char>>, Seq<char>>(opt_text(f.id))
    &&& json_str_at(c, "name"@) == Ok::<Option<Seq<char>>, Seq<char>>(opt_text(f.name))
    &&& json_items_at(c, "language"@) == Ok::<Option<Seq<Option<Seq<char>>>>, Seq<char>>(
        match f.language {
            Some(v) => Some(item_texts(v@)),
            None => None,
        },
    )
    &&& json_str_at(c, "preview_audio"@) == Ok::<Option<Seq<char>>, Seq<char>>(opt_text(f.preview_audio))
    &&& json_str_at(c, "description"@) == Ok::<Option<Seq<char>>, Seq<char>>(opt_text(f.description))
    &&& json_str_at(c, "local_audio_path"@) == Ok::<Option<Seq<char>>, Seq<char>>(
        opt_text(f.local_audio_path),
    )
}

/// Reads the fields of a voice metadata file with text `content`.
pub fn parse_profile_fields(content: &str) -> (r: Result<ProfileFields, String>)
    ensures
        r is Ok <==> read_error(content@) is None,
        r matches Ok(f) ==> fields_read(f, content@),
        r matches Err(e) ==> read_error(content@) == Some(e@),
{
    let id = json_str_field(content, "id")?;
    let name = json_str_field(content, "name")?;
    let language = json_str_items(content, "language")?;
    let preview_audio = json_str_field(content, "preview_audio")?;
    let description = json_str_field(content, "description")?;
    let local_audio_path = json_str_field(content, "local_audio_path")?;
    Ok(ProfileFields { id, name, language, preview_audio, description, local_audio_path })
}

/// The custom voice that a file with extension `extension` and text
/// `content` offers: none unless it is a metadata file whose fields can be
/// read; then the voice those fields describe.
pub fn custom_voice_from_file(extension: Option<&str>, content: &str) -> (p: Option<VoiceProfile>)
    ensures
        p is Some <==> ((extension matches Some(e) && e@ == "json"@) && read_error(content@) is None),
        p matches Some(v) ==> exists|f: ProfileFields| fields_read(f, content@) && is_custom_voice(v, f),
{
    if !is_profile_file(extension) {
        return None;
    }
    match parse_profile_fields(content) {
        Ok(fields) => Some(custom_voice(&fields)),
        Err(_) => None,
    }
}

/// The reference recording that a voice metadata file with text `content`
/// names: none when it cannot be read or names none.
pub fn local_audio_path_of(content: &str) -> (r: Option<String>)
    ensures
        opt_text(r) == match json_str_at(content@, "local_audio_path"@) {
            Ok(x) => x,
            Err(_) => None,
        },
{
    match json_str_field(content, "local_audio_path") {
        Ok(path) => path,
        Err(_) => None,
    }
}

/// The recording to remove along with a voice whose metadata file has text
/// `content`: the one it names, if any; the parse error's text when it
/// cannot be read.
pub fn recording_to_remove(content: &str) -> (r: Result<Option<String>, String>)
    ensures
        str_read_agrees(r, json_str_at(content@, "local_audio_path"@)),
{
    json_str_field(content, "local_audio_path")
}

/// Whether a file with extension `extension` holds voice metadata.
pub fn is_profile_file(extension: Option<&str>) -> (r: bool)
    ensures
        r == (extension matches Some(e) && e@ == "json"@),
{
    match extension {
        Some(e) => str_eq(e, "json"),
        None => false,
    }
}

/// The name of the metadata file of the voice `voice_id`.
pub fn profile_file_name(voice_id: &str) -> (s: String)
    ensures
        s@ == voice_id@ + ".json"@,
{
    concat2(voice_id, ".json")
}

/// The identifier of a speech request made at `now_ms`.
pub fn task_id(now_ms: u128) -> (s: String)
    ensures
        s@ == "tts-"@ + decimal(now_ms as nat),
{
    concat2("tts-", decimal_string(now_ms).as_str())
}

/// The name of the audio file that the speech request `task_id` writes.
pub fn output_file_name(task_id: &str) -> (s: String)
    ensures
        s@ == task_id@ + ".wav"@,
{
    concat2(task_id, ".wav")
}

/// The speaker that `c` names, if it names one.
pub open spec fn chosen_speaker(c: VoiceChoice) -> Option<Seq<char>> {
    match c {
        VoiceChoice::Speaker { name } => Some(name@),
        VoiceChoice::Clone { .. } => None,
    }
}

/// The reference recording that `c` clones, if it clones one.
pub open spec fn chosen_recording(c: VoiceChoice) -> Option<String> {
    match c {
        VoiceChoice::Clone { reference_audio } => Some(reference_audio),
        VoiceChoice::Speaker { .. } => None,
    }
}

/// The voice to synthesize with. A cloned voice (`is_custom`) is cloned from
/// its reference recording when that recording is there
/// (`reference_audio`); otherwise the default speaker stands in. Any other
/// voice is the model's speaker of that name.
pub fn choose_voice(voice_id: &str, is_custom: bool, reference_audio: Option<String>) -> (c: VoiceChoice)
    ensures
        is_custom && reference_audio is Some ==> chosen_recording(c) == reference_audio,
        is_custom && reference_audio is None ==> chosen_speaker(c) == Some("female_01"@),
        !is_custom ==> chosen_speaker(c) == Some(voice_id@),
{
    if is_custom {
        match reference_audio {
            Some(path) => VoiceChoice::Clone { reference_audio: path },
            None => VoiceChoice::Speaker { name: "female_01".to_owned() },
        }
    } else {
        VoiceChoice::Speaker { name: voice_id.to_owned() }
    }
}

/// The error message that the outcome `o` of a speech request reports, if any.
pub open spec fn outcome_error(o: SpeechOutcome) -> Option<Seq<char>> {
    match o {
        SpeechOutcome::ModelUnavailable(m) => Some(m@),
        SpeechOutcome::SynthesisFailed(d) => Some("合成失败: "@ + d@),
        SpeechOutcome::NoWaveform => Some("生成结果为空"@),
        SpeechOutcome::WriteFailed(d) => Some("写入音频文件失败: "@ + d@),
        SpeechOutcome::Written(_) => None,
    }
}

/// What the speech request `task_id` reports when it ended with `outcome`
/// after `duration_ms` milliseconds.
pub fn speech_result(task_id: String, outcome: SpeechOutcome, duration_ms: u128) -> (r:
    GenerateSpeechResult)
    ensures
        r.task_id == task_id,
        r.duration_ms == duration_ms,
        opt_text(r.error) == outcome_error(outcome),
        outcome matches SpeechOutcome::Written(p) ==> r.status@ == "success"@ && opt_text(
            r.audio_path,
        ) == Some(p@),
        !(outcome is Written) ==> r.status@ == "failed"@ && r.audio_path is None,
{
    proof {
        reveal_strlit("success");
        reveal_strlit("failed");
        reveal_strlit("生成结果为空");
    }
    match outcome {
        SpeechOutcome::Written(path) => GenerateSpeechResult {
            task_id,
            status: "success".to_owned(),
            audio_path: Some(path),
            error: None,
            duration_ms,
        },
        SpeechOutcome::ModelUnavailable(message) => GenerateSpeechResult {
            task_id,
            status: "failed".to_owned(),
            audio_path: None,
            error: Some(message),
            duration_ms,
        },
        SpeechOutcome::SynthesisFailed(detail) => GenerateSpeechResult {
            task_id,
            status: "failed".to_owned(),
            audio_path: None,
            error: Some(concat2("合成失败: ", detail.as_str())),
            duration_ms,
        },
        SpeechOutcome::NoWaveform => GenerateSpeechResult {
            task_id,
            status: "failed".to_owned(),
            audio_path: None,
            error: Some("生成结果为空".to_owned()),
            duration_ms,
        },
        SpeechOutcome::WriteFailed(detail) => GenerateSpeechResult {
            task_id,
            status: "failed".to_owned(),
            audio_path: None,
            error: Some(concat2("写入音频文件失败: ", detail.as_str())),
            duration_ms,
        },
    }
}

/// The identifier given to a voice cloned at `now_ms`.
pub fn voice_profile_id(now_ms: u128) -> (s: String)
    ensures
        s@ == "voice-user-"@ + decimal(now_ms as nat),
{
    concat2("voice-user-", decimal_string(now_ms).as_str())
}

/// The name under which the reference recording of the voice `voice_id` is
/// kept: the identifier and the recording's own extension, `.wav` when it
/// has none.
pub fn reference_audio_file_name(voice_id: &str, extension: Option<&str>) -> (s: String)
    ensures
        extension matches Some(e) ==> s@ == voice_id@ + "."@ + e@,
        extension is None ==> s@ == voice_id@ + ".wav"@,
{
    match extension {
        Some(e) => concat3(voice_id, ".", e),
        None => concat2(voice_id, ".wav"),
    }
}

/// What cloning the voice `voice_id` reports when copying the recording
/// failed with `detail`.
pub fn clone_failed(voice_id: String, detail: &str) -> (r: CloneVoiceResult)
    ensures
        r.voice_profile_id == voice_id,
        r.status@ == "failed: "@ + detail@,
{
    CloneVoiceResult { voice_profile_id: voice_id, status: concat2("failed: ", detail) }
}

/// What cloning the voice `voice_id` reports when it succeeded.
pub fn clone_succeeded(voice_id: String) -> (r: CloneVoiceResult)
    ensures
        r.voice_profile_id == voice_id,
        r.status@ == "success"@,
{
    proof {
        reveal_strlit("success");
    }
    CloneVoiceResult { voice_profile_id: voice_id, status: "success".to_owned() }
}

/// The metadata of the voice `voice_id` cloned from `payload`: the
/// recording, whose file name was `source_file_name`, is kept at
/// `kept_audio`.
pub fn cloned_voice_meta(
    voice_id: &str,
    payload: &CloneVoicePayload,
    source_file_name: &str,
    kept_audio: &str,
) -> (m: ClonedVoiceMeta)
    ensures
        m.id@ == voice_id@,
        m.name@ == payload.name@,
        m.voice_type@ == "custom"@,
        texts(m.language@) == seq![payload.language@],
        m.description@ == "参考音频: "@ + source_file_name@,
        m.preview_audio@ == kept_audio@,
        m.local_audio_path@ == kept_audio@,
{
    proof {
        reveal_strlit("custom");
    }
    let mut language: Vec<String> = Vec::new();
    language.push(payload.language.clone());
    assert(texts(language@) =~= seq![payload.language@]);
    ClonedVoiceMeta {
        id: voice_id.to_owned(),
        name: payload.name.clone(),
        voice_type: "custom".to_owned(),
        language,
        description: concat2("参考音频: ", source_file_name),
        preview_audio: kept_audio.to_owned(),
        local_audio_path: kept_audio.to_owned(),
    }
}

/// Wrapping each string of `v` in `Some`, then keeping the strings present,
/// gives back the strings of `v`.
pub proof fn lemma_present_texts_of_all(v: Seq<String>)
    ensures
        present_texts(v.map_values(|s: String| Some(s))) == texts(v),
    decreases v.len(),
{
    if v.len() > 0 {
        lemma_present_texts_of_all(v.drop_last());
        assert(v.map_values(|s: String| Some(s)).drop_last() =~= v.drop_last().map_values(
            |s: String| Some(s),
        ));
        assert(texts(v) =~= texts(v.drop_last()).push(v.last()@));
    } else {
        assert(texts(v) =~= Seq::<Seq<char>>::empty());
    }
}

/// `f` holds what the metadata file written for the cloned voice `m` holds
/// when it is read back: each field as written.
pub open spec fn reads_back_as(f: ProfileFields, m: ClonedVoiceMeta) -> bool {
    &&& f.id == Some(m.id)
    &&& f.name == Some(m.name)
    &&& f.language matches Some(v) && v@ == m.language@.map_values(|s: String| Some(s))
    &&& f.preview_audio == Some(m.preview_audio)
    &&& f.description == Some(m.description)
}

/// A cloned voice is offered back as it was saved: the custom voice read
/// from its metadata has its identifier, name, languages, preview and
/// description.
pub proof fn law_cloned_voice_reads_back(m: ClonedVoiceMeta, f: ProfileFields, p: VoiceProfile)
    requires
        reads_back_as(f, m),
        is_custom_voice(p, f),
    ensures
        p.id@ == m.id@,
        p.name@ == m.name@,
        p.voice_type@ == "custom"@,
        texts(p.language@) == texts(m.language@),
        opt_text(p.preview_audio) == Some(m.preview_audio@),
        opt_text(p.description) == Some(m.description@),
{
    lemma_present_texts_of_all(m.language@);
}

/// Requests made at different milliseconds get different identifiers, both
/// for speech requests and for cloned voices.
pub proof fn law_identifiers_distinct(a: u128, b: u128)
    requires
        a != b,
    ensures
        "tts-"@ + decimal(a as nat) != "tts-"@ + decimal(b as nat),
        "voice-user-"@ + decimal(a as nat) != "voice-user-"@ + decimal(b as nat),
{
    let p = "tts-"@;
    let q = "voice-user-"@;
    if p + decimal(a as nat) == p + decimal(b as nat) {
        assert((p + decimal(a as nat)).skip(p.len() as int) =~= decimal(a as nat));
        assert((p + decimal(b as nat)).skip(p.len() as int) =~= decimal(b as nat));
        lemma_decimal_injective(a as nat, b as nat);
    }
    if q + decimal(a as nat) == q + decimal(b as nat) {
        assert((q + decimal(a as nat)).skip(q.len() as int) =~= decimal(a as nat));
        assert((q + decimal(b as nat)).skip(q.len() as int) =~= decimal(b as nat));
        lemma_decimal_injective(a as nat, b as nat);
    }
}

} // verus!
