//! The speech engine's lifecycle: the model is loaded lazily, on first use,
//! and the outcome of that single attempt (the model, or the reason it could
//! not be loaded) is kept from then on.
use vstd::prelude::*;

use crate::text::concat2;

verus! {

/// What the user interface shows about the speech service.
#[derive(Debug)]
pub struct ServiceStatus {
    pub running: bool,
    pub mode: String,
    pub model_loaded: bool,
    pub message: String,
}

/// The message kept when loading the model failed with `detail`.
pub open spec fn load_failure_message(detail: Seq<char>) -> Seq<char> {
    "模型加载失败: "@ + detail
}

/// The message shown when the model is loaded.
pub open spec fn loaded_message() -> Seq<char> {
    "模型已加载"@
}

/// The message shown before any attempt to load the model.
pub open spec fn not_loaded_message() -> Seq<char> {
    "模型未加载，请将 Qwen3-TTS 模型文件放入 models/ 目录"@
}

/// The speech engine: a model of type `M`, loaded on first use from a directory.
pub struct TtsEngine<M> {
    model: Option<M>,
    model_path: String,
    load_error: Option<String>,
}

impl<M> TtsEngine<M> {
    /// The loaded model, if any.
    pub closed spec fn spec_model(&self) -> Option<M> {
        self.model
    }

    /// The directory the model is loaded from.
    pub closed spec fn spec_model_path(&self) -> Seq<char> {
        self.model_path@
    }

    /// Why loading the model failed, if it did.
    pub closed spec fn spec_load_error(&self) -> Option<Seq<char>> {
        match self.load_error {
            Some(e) => Some(e@),
            None => None,
        }
    }

    /// No load has been attempted yet.
    pub open spec fn needs_load(&self) -> bool {
        self.spec_model() is None && self.spec_load_error() is None
    }

    /// The state is one the engine can be in: never both a model and an error.
    #[verifier::type_invariant]
    pub closed spec fn wf(&self) -> bool {
        !(self.model is Some && self.load_error is Some)
    }

    /// A fresh engine for the model in `model_path`; nothing is loaded yet.
    pub fn new(model_path: String) -> (e: Self)
        ensures
            e.spec_model() is None,
            e.spec_load_error() is None,
            e.spec_model_path() == model_path@,
    {
        TtsEngine { model: None, model_path, load_error: None }
    }

    /// Whether the model is loaded.
    pub fn is_loaded(&self) -> (r: bool)
        ensures
            r == self.spec_model() is Some,
    {
        self.model.is_some()
    }

    /// Why loading the model failed, if it did.
    pub fn load_error(&self) -> (r: Option<&str>)
        ensures
            match r {
                Some(s) => self.spec_load_error() == Some(s@),
                None => self.spec_load_error() is None,
            },
    {
        match &self.load_error {
            Some(e) => Some(e.as_str()),
            None => None,
        }
    }

    /// The directory the model is loaded from.
    pub fn model_path(&self) -> (p: &str)
        ensures
            p@ == self.spec_model_path(),
    {
        self.model_path.as_str()
    }

    /// The outcome of asking for the model, when it is already settled: the
    /// loaded model, or the kept error. `None` when no load has been
    /// attempted yet; the caller then loads and calls `finish_load`.
    pub fn cached_model(&self) -> (r: Option<Result<&M, String>>)
        ensures
            self.spec_model() is Some ==> r == Some(Ok::<&M, String>(&self.spec_model()->0)),
            self.spec_load_error() is Some ==> (r matches Some(Err(e)) && e@
                == self.spec_load_error()->0),
            self.needs_load() ==> r is None,
    {
        proof {
            use_type_invariant(self);
        }
        match &self.model {
            Some(m) => Some(Ok(m)),
            None => match &self.load_error {
                Some(e) => Some(Err(e.clone())),
                None => None,
            },
        }
    }

    /// Keeps the outcome of the one attempt to load the model: the model, or,
    /// when loading failed with a detail, the message that names it, given
    /// back from then on.
    pub fn finish_load(&mut self, outcome: Result<M, String>)
        requires
            old(self).needs_load(),
        ensures
            final(self).spec_model_path() == old(self).spec_model_path(),
            !final(self).needs_load(),
            match outcome {
                Ok(m) => final(self).spec_model() == Some(m) && final(self).spec_load_error() is None,
                Err(d) => final(self).spec_model() is None && final(self).spec_load_error() == Some(
                    load_failure_message(d@),
                ),
            },
    {
        match outcome {
            Ok(m) => {
                self.model = Some(m);
            },
            Err(d) => {
                self.load_error = Some(concat2("模型加载失败: ", d.as_str()));
            },
        }
    }

    /// What the speech service reports about itself.
    pub fn status(&self) -> (s: ServiceStatus)
        ensures
            s.running == self.spec_model() is Some,
            s.model_loaded == self.spec_model() is Some,
            s.mode@ == "qwen3"@,
            self.spec_model() is Some ==> s.message@ == loaded_message(),
            self.spec_model() is None && self.spec_load_error() is Some ==> s.message@
                == load_failure_message(self.spec_load_error()->0),
            self.needs_load() ==> s.message@ == not_loaded_message(),
    {
        proof {
            reveal_strlit("qwen3");
            reveal_strlit("模型已加载");
            reveal_strlit("模型未加载，请将 Qwen3-TTS 模型文件放入 models/ 目录");
        }
        let loaded = self.is_loaded();
        let message = if loaded {
            "模型已加载".to_owned()
        } else {
            match &self.load_error {
                Some(err) => concat2("模型加载失败: ", err.as_str()),
                None => "模型未加载，请将 Qwen3-TTS 模型文件放入 models/ 目录".to_owned(),
            }
        };
        ServiceStatus { running: loaded, mode: "qwen3".to_owned(), model_loaded: loaded, message }
    }
}

/// The model is loaded at most once: whatever the outcome of the first
/// attempt, the engine afterwards settles every request from what it kept,
/// and a failure is kept as it was reported.
pub proof fn law_single_load_attempt<M>(before: TtsEngine<M>, after: TtsEngine<M>, outcome: Result<M, String>)
    requires
        before.needs_load(),
        after.spec_model_path() == before.spec_model_path(),
        match outcome {
            Ok(m) => after.spec_model() == Some(m) && after.spec_load_error() is None,
            Err(d) => after.spec_model() is None && after.spec_load_error() == Some(load_failure_message(d@)),
        },
    ensures
        !after.needs_load(),
        !(after.spec_model() is Some && after.spec_load_error() is Some),
        outcome is Ok <==> after.spec_model() is Some,
{
}

} // verus!
