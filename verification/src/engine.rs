//! The engine capability: a stateful handle that loads one model at a time and answers each
//! call with a stream of events; and the stub engine that echoes its prompt.

use crate::manifest::InferenceConfig;
use crate::protocol::{
    InferenceEvent, InferenceEventView, ThoughtEvent, ThoughtEventView, event_views,
};
use crate::text::join_text;
use vstd::prelude::*;
use vstd::string::*;

verus! {

/// Number of components of the stub engine's embedding.
pub const STUB_EMBEDDING_LEN: usize = 384;

/// The stub engine's embedding: component `i` is the single-precision sine of `i / 100`,
/// as a bit pattern.
pub const STUB_EMBEDDING: [u32; 384] = [
    0x00000000, 0x3c23d657, 0x3ca3d43e, 0x3cf5b91f, 0x3d23cbdb, 0x3d4cb6f4,
    0x3d759cd1, 0x3d8f3e32, 0x3da3aa50, 0x3db8123e, 0x3dcc7576, 0x3de0d372,
    0x3df52bac, 0x3e04bed0, 0x3e0ee464, 0x3e19064f, 0x3e232450, 0x3e2d3e23,
    0x3e375387, 0x3e41643a, 0x3e4b6ff8, 0x3e557683, 0x3e5f7796, 0x3e6972f0,
    0x3e736851, 0x3e7d5777, 0x3e83a010, 0x3e889105, 0x3e8d7e7d, 0x3e926854,
    0x3e974e6c, 0x3e9c30a5, 0x3ea10ede, 0x3ea5e8f7, 0x3eaabed2, 0x3eaf904d,
    0x3eb45d49, 0x3eb925a9, 0x3ebde94a, 0x3ec2a80e, 0x3ec761d7, 0x3ecc1685,
    0x3ed0c5fa, 0x3ed57016, 0x3eda14bd, 0x3edeb3cd, 0x3ee34d2a, 0x3ee7e0b6,
    0x3eec6e52, 0x3ef0f5e0, 0x3ef57744, 0x3ef9f25e, 0x3efe6712, 0x3f016aa2,
    0x3f039e6a, 0x3f05ced5, 0x3f07fbd2, 0x3f0a2553, 0x3f0c4b4c, 0x3f0e6dad,
    0x3f108c68, 0x3f12a771, 0x3f14beb8, 0x3f16d231, 0x3f18e1cd, 0x3f1aed7f,
    0x3f1cf539, 0x3f1ef8ef, 0x3f20f894, 0x3f22f41a, 0x3f24eb73, 0x3f26de94,
    0x3f28cd6f, 0x3f2ab7f7, 0x3f2c9e22, 0x3f2e7fe1, 0x3f305d28, 0x3f3235eb,
    0x3f340a1e, 0x3f35d9b6, 0x3f37a4a6, 0x3f396ae2, 0x3f3b2c5f, 0x3f3ce912,
    0x3f3ea0ee, 0x3f4053e9, 0x3f4201f8, 0x3f43ab10, 0x3f454f25, 0x3f46ee2c,
    0x3f48881d, 0x3f4a1cea, 0x3f4bac8c, 0x3f4d36f7, 0x3f4ebc21, 0x3f503c00,
    0x3f51b68a, 0x3f532bb5, 0x3f549b79, 0x3f5605cc, 0x3f576aa4, 0x3f58c9f9,
    0x3f5a23c0, 0x3f5b77f2, 0x3f5cc686, 0x3f5e0f72, 0x3f5f52b0, 0x3f609036,
    0x3f61c7fc, 0x3f62f9fc, 0x3f64262b, 0x3f654c82, 0x3f666cfc, 0x3f67878f,
    0x3f689c34, 0x3f69aae6, 0x3f6ab39c, 0x3f6bb64f, 0x3f6cb2fa, 0x3f6da996,
    0x3f6e9a1d, 0x3f6f8487, 0x3f7068d1, 0x3f7146f2, 0x3f721ee7, 0x3f72f0a8,
    0x3f73bc31, 0x3f74817d, 0x3f754087, 0x3f75f949, 0x3f76abc0, 0x3f7757e5,
    0x3f77fdb6, 0x3f789d2e, 0x3f793648, 0x3f79c902, 0x3f7a5556, 0x3f7adb41,
    0x3f7b5ac1, 0x3f7bd3d1, 0x3f7c466f, 0x3f7cb298, 0x3f7d1848, 0x3f7d777e,
    0x3f7dd037, 0x3f7e2270, 0x3f7e6e28, 0x3f7eb35d, 0x3f7ef20c, 0x3f7f2a35,
    0x3f7f5bd5, 0x3f7f86ec, 0x3f7fab78, 0x3f7fc978, 0x3f7fe0ed, 0x3f7ff1d4,
    0x3f7ffc2e, 0x3f7ffffb, 0x3f7ffd39, 0x3f7ff3eb, 0x3f7fe40e, 0x3f7fcda5,
    0x3f7fb0af, 0x3f7f8d2e, 0x3f7f6322, 0x3f7f328c, 0x3f7efb6e, 0x3f7ebdc8,
    0x3f7e799e, 0x3f7e2eef, 0x3f7dddbf, 0x3f7d860f, 0x3f7d27e1, 0x3f7cc339,
    0x3f7c5818, 0x3f7be681, 0x3f7b6e77, 0x3f7aeffe, 0x3f7a6b18, 0x3f79dfc9,
    0x3f794e14, 0x3f78b5fe, 0x3f781789, 0x3f7772bb, 0x3f76c797, 0x3f761622,
    0x3f755e60, 0x3f74a056, 0x3f73dc09, 0x3f73117d, 0x3f7240b9, 0x3f7169c1,
    0x3f708c9b, 0x3f6fa94d, 0x3f6ebfdc, 0x3f6dd04e, 0x3f6cdaaa, 0x3f6bdef6,
    0x3f6add37, 0x3f69d575, 0x3f68c7b7, 0x3f67b404, 0x3f669a62, 0x3f657ad9,
    0x3f645570, 0x3f632a2e, 0x3f61f91c, 0x3f60c241, 0x3f5f85a5, 0x3f5e4350,
    0x3f5cfb4b, 0x3f5bad9d, 0x3f5a5a50, 0x3f59016b, 0x3f57a2f9, 0x3f563f01,
    0x3f54d58d, 0x3f5366a7, 0x3f51f254, 0x3f5078a4, 0x3f4ef99e, 0x3f4d754c,
    0x3f4bebb7, 0x3f4a5ce9, 0x3f48c8ee, 0x3f472fce, 0x3f459195, 0x3f43ee4e,
    0x3f424602, 0x3f4098bd, 0x3f3ee68a, 0x3f3d2f74, 0x3f3b7386, 0x3f39b2cb,
    0x3f37ed50, 0x3f36231f, 0x3f345445, 0x3f3280cd, 0x3f30a8c3, 0x3f2ecc33,
    0x3f2ceb29, 0x3f2b05b3, 0x3f291bdc, 0x3f272db0, 0x3f253b3a, 0x3f23448c,
    0x3f2149af, 0x3f1f4ab2, 0x3f1d47a1, 0x3f1b408a, 0x3f193578, 0x3f17267b,
    0x3f15139f, 0x3f12fcf3, 0x3f10e282, 0x3f0ec45d, 0x3f0ca290, 0x3f0a7d29,
    0x3f085436, 0x3f0627c6, 0x3f03f7e7, 0x3f01c4a7, 0x3eff1c2a, 0x3efaa87d,
    0x3ef62e66, 0x3ef1ae01, 0x3eed276c, 0x3ee89ac6, 0x3ee4082a, 0x3edf6fb2,
    0x3edad188, 0x3ed62dc4, 0x3ed18484, 0x3eccd5e7, 0x3ec8220c, 0x3ec36912,
    0x3ebeab17, 0x3eb9e83a, 0x3eb5209b, 0x3eb05458, 0x3eab8393, 0x3ea6ae69,
    0x3ea1d4fb, 0x3e9cf768, 0x3e9815d1, 0x3e933054, 0x3e8e4714, 0x3e895a2f,
    0x3e8469c5, 0x3e7eebf1, 0x3e74fdd0, 0x3e6b096a, 0x3e610eff, 0x3e570ed2,
    0x3e4d0923, 0x3e42fe24, 0x3e38ee38, 0x3e2ed98f, 0x3e24c06d, 0x3e1aa313,
    0x3e1081c3, 0x3e065cc1, 0x3df8689c, 0x3de4115a, 0x3dcfb441, 0x3dbb51d7,
    0x3da6eaa1, 0x3d927f26, 0x3d7c1fd5, 0x3d533ae9, 0x3d2a5096, 0x3d0161e6,
    0x3cb0dfcc, 0x3c3dee8b, 0x3ad0c50b, 0xbc09bdf4, 0xbc96c881, 0xbce8ae2c,
    0xbd1d46f1, 0xbd4632c5, 0xbd6f1987, 0xbd8bfd35, 0xbda069f0, 0xbdb4d291,
    0xbdc93690, 0xbddd9569, 0xbdf1ee96, 0xbe0320c8, 0xbe0d46eb, 0xbe17696f,
    0xbe218813, 0xbe2ba295, 0xbe35b8b1, 0xbe3fca27, 0xbe49d6b4, 0xbe53de16,
    0xbe5de00c, 0xbe67dc53, 0xbe71d2ab, 0xbe7bc2d2, 0xbe82d644, 0xbe87c7c5,
    0xbe8cb5cc, 0xbe91a03a, 0xbe9686ed, 0xbe9b69c5, 0xbea048aa, 0xbea5236e,
    0xbea9f9f7, 0xbeaecc26, 0xbeb399dc, 0xbeb862f9, 0xbebd275d, 0xbec1e6ea,
    0xbec6a180, 0xbecb5700, 0xbed0074b, 0xbed4b244, 0xbed957ca, 0xbeddf7c0,
    0xbee29207, 0xbee72682, 0xbeebb511, 0xbef03d98, 0xbef4bff9, 0xbef93c15,
    0xbefdb1d0, 0xbf011087, 0xbf0344d7, 0xbf0575cb, 0xbf07a355, 0xbf09cd65,
    0xbf0bf3f2, 0xbf0e16e7, 0xbf103638, 0xbf1251d8, 0xbf1469b9, 0xbf167dcd,
    0xbf188e08, 0xbf1a9a5a, 0xbf1ca2b7, 0xbf1ea712, 0xbf20a75d, 0xbf22a38b,
];

/// The stream of one engine call, pulled one item at a time.
pub trait EventStream {
    /// Yields the next item, or `None` once the stream is exhausted.
    fn next_event(&mut self) -> (item: Option<Result<InferenceEvent, String>>);
}

/// An inference engine: at most one model is loaded at any instant.
pub trait Engine {
    /// The stream one call returns.
    type Stream: EventStream;

    /// Whether a model is loaded; an implementation answers as its `is_loaded` does.
    spec fn loaded(&self) -> bool;

    /// Loads the model at `model_path` in place of any model loaded before. A failed load
    /// leaves the engine unloaded.
    fn load_model(&mut self, model_path: &str) -> (outcome: Result<(), String>)
        ensures
            outcome is Ok <==> final(self).loaded(),
    ;

    /// Releases the loaded model; does nothing when none is loaded.
    fn unload_model(&mut self) -> (outcome: Result<(), String>)
        ensures
            outcome is Ok ==> !final(self).loaded(),
            !old(self).loaded() ==> outcome is Ok,
    ;

    /// Whether a model is loaded.
    fn is_loaded(&self) -> (loaded: bool)
        ensures
            loaded == self.loaded(),
    ;

    /// A registry name to fall back on when no model was ever loaded.
    fn default_model(&self) -> String;

    /// Starts an inference call. Fails at once when no model is loaded.
    fn infer(&mut self, prompt: &str, config: InferenceConfig) -> (outcome: Result<
        Self::Stream,
        String,
    >)
        ensures
            !old(self).loaded() ==> outcome is Err,
            final(self).loaded() == old(self).loaded(),
    ;

    /// Starts an embedding call. Fails at once when no model is loaded.
    fn embed(&mut self, input: &str, config: InferenceConfig) -> (outcome: Result<
        Self::Stream,
        String,
    >)
        ensures
            !old(self).loaded() ==> outcome is Err,
            final(self).loaded() == old(self).loaded(),
    ;
}

/// A stream that replays a prepared list of events.
pub struct Script {
    /// The events still to come, last first.
    pending: Vec<InferenceEvent>,
}

impl Script {
    /// The events still to come, in order.
    pub closed spec fn events(&self) -> Seq<InferenceEventView> {
        Seq::new(self.pending.len() as nat, |i: int| self.pending[self.pending.len() - 1 - i]@)
    }

    /// A stream that yields `events` from first to last.
    pub fn new(events: Vec<InferenceEvent>) -> (script: Self)
        ensures
            script.events() == event_views(events@),
    {
        let mut pending: Vec<InferenceEvent> = Vec::new();
        let mut events = events;
        let ghost all = event_views(events@);
        while events.len() > 0
            invariant
                pending.len() + events.len() == all.len(),
                forall|i: int| 0 <= i < events.len() ==> events[i]@ == all[i],
                forall|i: int|
                    0 <= i < pending.len() ==> #[trigger] pending[i]@ == all[all.len() - 1 - i],
            decreases events.len(),
        {
            let last = events.pop().unwrap();
            pending.push(last);
        }
        let script = Script { pending };
        assert(script.events() =~= all);
        script
    }
}

impl EventStream for Script {
    fn next_event(&mut self) -> (item: Option<Result<InferenceEvent, String>>)
        ensures
            match item {
                Some(yielded) => {
                    &&& old(self).events().len() > 0
                    &&& yielded matches Ok(event)
                    &&& event@ == old(self).events()[0]
                    &&& final(self).events() == old(self).events().skip(1)
                },
                None => old(self).events().len() == 0 && final(self).events().len() == 0,
            },
    {
        let ghost before = self.events();
        match self.pending.pop() {
            Some(event) => {
                assert(self.events() =~= before.skip(1));
                Some(Ok(event))
            },
            None => None,
        }
    }
}

/// What the stub engine answers to an inference call: a short thought, then the prompt
/// echoed.
pub open spec fn spec_stub_inference(prompt: Seq<char>) -> Seq<InferenceEventView> {
    seq![
        InferenceEventView::ProcessStart,
        InferenceEventView::Thought(ThoughtEventView::Start),
        InferenceEventView::Thought(ThoughtEventView::Delta("Narf!"@)),
        InferenceEventView::Thought(ThoughtEventView::Stop),
        InferenceEventView::Content("Pinky says: "@ + prompt),
        InferenceEventView::Complete,
    ]
}

/// What the stub engine answers to an embedding call: one fixed embedding.
pub open spec fn spec_stub_embedding() -> Seq<InferenceEventView> {
    seq![
        InferenceEventView::ProcessStart,
        InferenceEventView::Embedding(STUB_EMBEDDING@),
        InferenceEventView::Complete,
    ]
}

/// The stub engine: loads anything, echoes the prompt.
#[derive(Debug)]
pub struct Pinky {
    model_loaded: bool,
}

impl Pinky {
    /// A stub engine with no model loaded.
    pub fn new() -> (engine: Self)
        ensures
            !engine.loaded(),
    {
        Pinky { model_loaded: false }
    }
}

impl Default for Pinky {
    fn default() -> (engine: Self)
        ensures
            !engine.loaded(),
    {
        Pinky::new()
    }
}

impl Engine for Pinky {
    type Stream = Script;

    closed spec fn loaded(&self) -> bool {
        self.model_loaded
    }

    fn load_model(&mut self, model_path: &str) -> (outcome: Result<(), String>)
        ensures
            outcome is Ok,
    {
        self.model_loaded = true;
        Ok(())
    }

    fn unload_model(&mut self) -> (outcome: Result<(), String>)
        ensures
            outcome is Ok,
    {
        self.model_loaded = false;
        Ok(())
    }

    fn is_loaded(&self) -> (loaded: bool) {
        self.model_loaded
    }

    fn default_model(&self) -> (name: String)
        ensures
            name@ == "tiny-model"@,
    {
        String::from_str("tiny-model")
    }

    fn infer(&mut self, prompt: &str, config: InferenceConfig) -> (outcome: Result<Script, String>)
        ensures
            match outcome {
                Ok(stream) => old(self).loaded() && stream.events() == spec_stub_inference(
                    prompt@,
                ),
                Err(message) => !old(self).loaded() && message@ == "no model loaded"@,
            },
    {
        if !self.model_loaded {
            return Err(String::from_str("no model loaded"));
        }
        let mut events: Vec<InferenceEvent> = Vec::new();
        events.push(InferenceEvent::ProcessStart);
        events.push(InferenceEvent::Thought(ThoughtEvent::Start));
        events.push(InferenceEvent::Thought(ThoughtEvent::Delta(String::from_str("Narf!"))));
        events.push(InferenceEvent::Thought(ThoughtEvent::Stop));
        events.push(InferenceEvent::Content(join_text("Pinky says: ", prompt)));
        events.push(InferenceEvent::Complete);
        assert(event_views(events@) =~= spec_stub_inference(prompt@));
        Ok(Script::new(events))
    }

    fn embed(&mut self, input: &str, config: InferenceConfig) -> (outcome: Result<Script, String>)
        ensures
            match outcome {
                Ok(stream) => old(self).loaded() && stream.events() == spec_stub_embedding(),
                Err(message) => !old(self).loaded() && message@ == "no model loaded"@,
            },
    {
        if !self.model_loaded {
            return Err(String::from_str("no model loaded"));
        }
        let mut components: Vec<u32> = Vec::new();
        let mut i: usize = 0;
        while i < STUB_EMBEDDING_LEN
            invariant
                i <= STUB_EMBEDDING_LEN,
                components.len() == i,
                forall|j: int| 0 <= j < i ==> components[j] == STUB_EMBEDDING[j],
            decreases STUB_EMBEDDING_LEN - i,
        {
            components.push(STUB_EMBEDDING[i]);
            i += 1;
        }
        assert(components@ =~= STUB_EMBEDDING@);
        let mut events: Vec<InferenceEvent> = Vec::new();
        events.push(InferenceEvent::ProcessStart);
        events.push(InferenceEvent::Embedding(components));
        events.push(InferenceEvent::Complete);
        assert(event_views(events@) =~= spec_stub_embedding());
        Ok(Script::new(events))
    }
}

/// The engine this build runs on: the stub.
pub fn create_engine() -> (engine: Pinky)
    ensures
        !engine.loaded(),
{
    Pinky::new()
}

/// The stub's answer to an inference call comes in the order of a whole call and ends in
/// `Complete`.
pub proof fn law_stub_inference_is_well_formed(prompt: Seq<char>)
    ensures
        crate::thought::spec_well_formed_inference(spec_stub_inference(prompt)),
        spec_stub_inference(prompt).last() is Complete,
{
    let events = spec_stub_inference(prompt);
    let body = events.subrange(1, events.len() - 1);
    reveal_with_fuel(crate::thought::spec_flow, 6);
    assert(body.drop_last() =~= seq![events[1], events[2], events[3]]);
    assert(body.drop_last().drop_last() =~= seq![events[1], events[2]]);
    assert(body.drop_last().drop_last().drop_last() =~= seq![events[1]]);
    assert(body.drop_last().drop_last().drop_last().drop_last() =~= Seq::<
        InferenceEventView,
    >::empty());
}

/// The stub's answer to an embedding call is one embedding between `ProcessStart` and
/// `Complete`.
pub proof fn law_stub_embedding_is_well_formed()
    ensures
        crate::thought::spec_well_formed_embedding(spec_stub_embedding()),
        spec_stub_embedding()[1] == InferenceEventView::Embedding(STUB_EMBEDDING@),
        STUB_EMBEDDING@.len() == 384,
{
}

} // verus!
