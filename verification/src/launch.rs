//! The start of an agent from its arguments: the text of the pipeline, the plugins that it needs
//! and the number under which it registers.

use vstd::prelude::*;

use rand::Rng;

use crate::error::{AgentError, AgentErrorView};
use crate::text::{contains, join, joined, occurs, occurs_at, same, views};
use crate::utils::{reinterpreted, BsVideoConfig, PixelFormat, VideoParameters};

verus! {

/// The pipeline that an agent runs if it is given none.
pub const DEFAULT_PIPELINE: &'static str =
    "videotestsrc pattern=ball is-live=true ! vp8enc deadline=1 ! rtpvp8pay pt=96 ! webrtcbin. \
        audiotestsrc is-live=true ! opusenc ! rtpopuspay pt=97 ! webrtcbin. \
        webrtcbin name=webrtcbin";

/// The signalling server that an agent connects to if it is given none.
pub const DEFAULT_SERVER: &'static str = "wss://localhost:8443";

/// What an agent is told when it starts.
#[derive(Debug, PartialEq, Eq)]
pub struct Args {
    /// The address of the signalling server.
    pub server: String,
    /// The peer whose session the agent joins. Without one the agent waits to be called.
    pub peer_id: Option<u32>,
    /// The number under which the agent registers. Without one a number is drawn.
    pub agent_id: Option<u32>,
    /// The description of the pipeline, in pieces.
    pub pipeline: Vec<String>,
}

impl Clone for Args {
    fn clone(&self) -> (result: Args)
        ensures
            result.server@ == self.server@,
            result.peer_id == self.peer_id,
            result.agent_id == self.agent_id,
            views(result.pipeline@) == views(self.pipeline@),
    {
        let pipeline = self.pipeline.clone();
        assert(views(pipeline@) =~= views(self.pipeline@));
        Args {
            server: self.server.clone(),
            peer_id: self.peer_id,
            agent_id: self.agent_id,
            pipeline,
        }
    }
}

/// `suffix` if `wanted`, else nothing.
pub open spec fn when(wanted: bool, suffix: Seq<char>) -> Seq<char> {
    if wanted {
        suffix
    } else {
        Seq::empty()
    }
}

/// A pipeline description with the elements that it refers to and does not declare: a
/// reference to `webrtc.` asks for a WebRTC element, one to `video.` for an application source.
pub open spec fn primed(pipeline: Seq<char>) -> Seq<char> {
    pipeline + when(occurs("webrtc."@, pipeline), " webrtcbin name=webrtc"@) + when(
        occurs("video."@, pipeline),
        " appsrc name=video"@,
    )
}

/// An added WebRTC element adds no reference to `video.`.
proof fn lemma_video_reference_kept(pipeline: Seq<char>)
    ensures
        occurs("video."@, pipeline + " webrtcbin name=webrtc"@) == occurs("video."@, pipeline),
{
    let pattern = "video."@;
    let suffix = " webrtcbin name=webrtc"@;
    let extended = pipeline + suffix;
    reveal_strlit("video.");
    reveal_strlit(" webrtcbin name=webrtc");
    if occurs(pattern, pipeline) {
        let at = choose|at: int| occurs_at(pattern, pipeline, at);
        assert(extended.subrange(at, at + pattern.len()) == pipeline.subrange(
            at,
            at + pattern.len(),
        ));
        assert(occurs_at(pattern, extended, at));
    }
    if occurs(pattern, extended) {
        let at = choose|at: int| occurs_at(pattern, extended, at);
        let window = extended.subrange(at, at + pattern.len());
        assert(window[5] == '.');
        assert(extended[at + 5] == '.');
        assert(forall|i: int| 0 <= i < suffix.len() ==> suffix[i] != '.');
        if at + 5 >= pipeline.len() {
            assert(extended[at + 5] == suffix[at + 5 - pipeline.len()]);
        }
        assert(pipeline.subrange(at, at + pattern.len()) == window);
        assert(occurs_at(pattern, pipeline, at));
    }
}

/// Declares the elements that a pipeline description refers to.
pub fn prime_pipeline(pipeline: &mut String)
    ensures
        final(pipeline)@ == primed(old(pipeline)@),
{
    proof {
        lemma_video_reference_kept(pipeline@);
    }
    if contains(pipeline.as_str(), "webrtc.") {
        pipeline.append(" webrtcbin name=webrtc");
    }
    if contains(pipeline.as_str(), "video.") {
        pipeline.append(" appsrc name=video");
    }
}

/// Priming keeps the description that was given: it only adds to its end.
pub proof fn priming_extends(pipeline: Seq<char>)
    ensures
        pipeline.is_prefix_of(primed(pipeline)),
{
}

/// Priming leaves a description alone exactly if it refers to neither element.
pub proof fn priming_is_idle_without_references(pipeline: Seq<char>)
    ensures
        primed(pipeline) == pipeline <==> !occurs("webrtc."@, pipeline) && !occurs(
            "video."@,
            pipeline,
        ),
{
    reveal_strlit(" webrtcbin name=webrtc");
    reveal_strlit(" appsrc name=video");
    assert(!occurs("webrtc."@, pipeline) && !occurs("video."@, pipeline) ==> primed(pipeline)
        == pipeline);
    assert(occurs("webrtc."@, pipeline) || occurs("video."@, pipeline) ==> primed(pipeline).len()
        > pipeline.len());
}

/// A description that refers to an element declares it once it is primed.
pub proof fn priming_declares_what_is_referred_to(pipeline: Seq<char>)
    ensures
        occurs("webrtc."@, pipeline) ==> occurs(" webrtcbin name=webrtc"@, primed(pipeline)),
        occurs("video."@, pipeline) ==> occurs(" appsrc name=video"@, primed(pipeline)),
{
    let bin = " webrtcbin name=webrtc"@;
    let source = " appsrc name=video"@;
    let result = primed(pipeline);
    if occurs("webrtc."@, pipeline) {
        let at = pipeline.len() as int;
        assert(result.subrange(at, at + bin.len()) == bin);
        assert(occurs_at(bin, result, at));
    }
    if occurs("video."@, pipeline) {
        let at = result.len() - source.len();
        assert(result.subrange(at, at + source.len()) == source);
        assert(occurs_at(source, result, at));
    }
}

/// The plugins that the agent relies on.
pub open spec fn needed() -> Seq<Seq<char>> {
    seq![
        "videotestsrc"@,
        "audiotestsrc"@,
        "videoconvert"@,
        "audioconvert"@,
        "autodetect"@,
        "opus"@,
        "vpx"@,
        "webrtc"@,
        "nice"@,
        "dtls"@,
        "srtp"@,
        "rtpmanager"@,
        "rtp"@,
        "playback"@,
        "videoscale"@,
        "audioresample"@,
    ]
}

/// The names that are needed and not registered, in the order in which they are needed.
pub open spec fn missing(wanted: Seq<Seq<char>>, registered: Seq<Seq<char>>) -> Seq<Seq<char>> {
    wanted.filter(|name: Seq<char>| !registered.contains(name))
}

/// The plugins that the agent relies on.
pub fn needed_plugins() -> (result: Vec<String>)
    ensures
        views(result@) == needed(),
{
    let result: Vec<String> = vec![
        "videotestsrc".to_string(),
        "audiotestsrc".to_string(),
        "videoconvert".to_string(),
        "audioconvert".to_string(),
        "autodetect".to_string(),
        "opus".to_string(),
        "vpx".to_string(),
        "webrtc".to_string(),
        "nice".to_string(),
        "dtls".to_string(),
        "srtp".to_string(),
        "rtpmanager".to_string(),
        "rtp".to_string(),
        "playback".to_string(),
        "videoscale".to_string(),
        "audioresample".to_string(),
    ];
    assert(views(result@) =~= needed());
    result
}

/// Whether one of `names` is `name`.
fn lists(names: &Vec<String>, name: &str) -> (result: bool)
    ensures
        result == views(names@).contains(name@),
{
    for i in 0..names.len()
        invariant
            forall|j: int| 0 <= j < i ==> views(names@)[j] != name@,
    {
        if same(names[i].as_str(), name) {
            assert(views(names@)[i as int] == name@);
            return true;
        }
    }
    false
}

/// Checks that every plugin that the agent needs is among the registered ones.
pub fn check_plugins(registered: &Vec<String>) -> (result: Result<(), AgentError>)
    ensures
        result is Ok <==> missing(needed(), views(registered@)).len() == 0,
        result is Ok <==> {
            &&& views(registered@).contains("videotestsrc"@)
            &&& views(registered@).contains("audiotestsrc"@)
            &&& views(registered@).contains("videoconvert"@)
            &&& views(registered@).contains("audioconvert"@)
            &&& views(registered@).contains("autodetect"@)
            &&& views(registered@).contains("opus"@)
            &&& views(registered@).contains("vpx"@)
            &&& views(registered@).contains("webrtc"@)
            &&& views(registered@).contains("nice"@)
            &&& views(registered@).contains("dtls"@)
            &&& views(registered@).contains("srtp"@)
            &&& views(registered@).contains("rtpmanager"@)
            &&& views(registered@).contains("rtp"@)
            &&& views(registered@).contains("playback"@)
            &&& views(registered@).contains("videoscale"@)
            &&& views(registered@).contains("audioresample"@)
        },
        result matches Err(error) ==> error@ == AgentErrorView::MissingPlugins(
            missing(needed(), views(registered@)),
        ),
        result matches Err(error) ==> error@ == AgentErrorView::MissingPlugins(
            seq![
                "videotestsrc"@,
                "audiotestsrc"@,
                "videoconvert"@,
                "audioconvert"@,
                "autodetect"@,
                "opus"@,
                "vpx"@,
                "webrtc"@,
                "nice"@,
                "dtls"@,
                "srtp"@,
                "rtpmanager"@,
                "rtp"@,
                "playback"@,
                "videoscale"@,
                "audioresample"@,
            ].filter(|name: Seq<char>| !views(registered@).contains(name)),
        ),
{
    let wanted = needed_plugins();
    let ghost is_missing = |name: Seq<char>| !views(registered@).contains(name);
    let mut absent: Vec<String> = Vec::new();
    for i in 0..wanted.len()
        invariant
            views(wanted@) == needed(),
            is_missing == (|name: Seq<char>| !views(registered@).contains(name)),
            views(absent@) == needed().take(i as int).filter(is_missing),
    {
        reveal(Seq::filter);
        assert(needed().take(i + 1).drop_last() == needed().take(i as int));
        assert(views(wanted@)[i as int] == wanted@[i as int]@);
        let ghost before = absent@;
        if !lists(registered, wanted[i].as_str()) {
            absent.push(wanted[i].clone());
            assert(views(absent@) == views(before).push(wanted@[i as int]@));
        }
    }
    assert(needed().take(needed().len() as int) == needed());
    assert(views(absent@).len() == absent@.len());
    proof {
        complete_installation_is_accepted(views(registered@));
        missing_plugins_stand_in_order(views(registered@));
    }
    if absent.len() > 0 {
        Err(AgentError::MissingPlugins(absent))
    } else {
        Ok(())
    }
}

/// The check passes exactly if each needed plugin is registered.
pub proof fn nothing_missing_means_all_registered(
    wanted: Seq<Seq<char>>,
    registered: Seq<Seq<char>>,
)
    ensures
        missing(wanted, registered).len() == 0 <==> (forall|name: Seq<char>| #[trigger]
            wanted.contains(name) ==> registered.contains(name)),
{
    let is_missing = |name: Seq<char>| !registered.contains(name);
    broadcast use vstd::seq_lib::group_filter_ensures;

    let absent = missing(wanted, registered);
    if absent.len() == 0 {
        assert forall|name: Seq<char>| #[trigger] wanted.contains(name) implies registered.contains(
            name,
        ) by {
            let i = choose|i: int| 0 <= i < wanted.len() && wanted[i] == name;
            if is_missing(wanted[i]) {
                assert(wanted.filter(is_missing).contains(wanted[i]));
            }
        }
    } else {
        assert(is_missing(absent[0]));
        assert(wanted.filter(is_missing).contains(absent[0]));
        wanted.lemma_filter_contains_rev(is_missing, absent[0]);
    }
}

/// The units in which a source counts what it delivers.
#[derive(Clone, Copy, Debug, PartialEq, Eq, Structural)]
pub enum SourceFormat {
    Time,
}

/// What is set up before the agent connects.
#[derive(Debug, PartialEq, Eq)]
pub struct LaunchPlan {
    /// The video that the application delivers.
    pub video: VideoParameters,
    /// The text of the pipeline.
    pub description: String,
    /// The name of the element of the pipeline that takes the application's video.
    pub source: String,
    /// Whether the pipeline refers to that element. One that does not may go without it: then
    /// no video is taken from the application.
    pub source_required: bool,
    /// The units in which that element counts the application's frames.
    pub source_format: SourceFormat,
    /// The address of the signalling server.
    pub server: String,
}

impl Args {
    /// What is set up before the agent connects: the pieces of the pipeline, separated by
    /// blanks and primed, fed with the application's video.
    pub fn plan(&self, config: &BsVideoConfig) -> (result: LaunchPlan)
        ensures
            result.video.format == PixelFormat::Rgba,
            result.video.width == config.width,
            result.video.height == config.height,
            result.video.fps_numerator == reinterpreted(config.framerate),
            result.video.fps_denominator == 1,
            result.description@ == primed(joined(views(self.pipeline@), " "@)),
            result.source@ == "video"@,
            result.source_required == occurs("video."@, joined(views(self.pipeline@), " "@)),
            result.source_format == SourceFormat::Time,
            result.server@ == self.server@,
    {
        let mut description = join(&self.pipeline, " ");
        let source_required = contains(description.as_str(), "video.");
        prime_pipeline(&mut description);
        LaunchPlan {
            video: config.parameters(),
            description,
            source: "video".to_string(),
            source_required,
            source_format: SourceFormat::Time,
            server: self.server.clone(),
        }
    }

    /// The number under which the agent registers: the one that it was given, else one of at
    /// least 10 and below 10000 that is drawn.
    pub fn registration_id(&self) -> (result: u32)
        ensures
            self.agent_id matches Some(id) ==> result == id,
            self.agent_id is None ==> 10 <= result < 10_000,
    {
        match self.agent_id {
            Some(id) => id,
            None => random_between(10, 10_000),
        }
    }
}

/// `rand::Rng::gen_range` on the generator of the thread: a number of at least `low` and below
/// `high`. Which one is left to chance.
#[verifier::external_body]
fn random_between(low: u32, high: u32) -> (result: u32)
    requires
        low < high,
    ensures
        low <= result < high,
{
    rand::thread_rng().gen_range(low, high)
}

/// Nothing is missing exactly if each of these sixteen plugins is registered.
pub proof fn complete_installation_is_accepted(registered: Seq<Seq<char>>)
    ensures
        missing(needed(), registered).len() == 0 <==> {
            &&& registered.contains("videotestsrc"@)
            &&& registered.contains("audiotestsrc"@)
            &&& registered.contains("videoconvert"@)
            &&& registered.contains("audioconvert"@)
            &&& registered.contains("autodetect"@)
            &&& registered.contains("opus"@)
            &&& registered.contains("vpx"@)
            &&& registered.contains("webrtc"@)
            &&& registered.contains("nice"@)
            &&& registered.contains("dtls"@)
            &&& registered.contains("srtp"@)
            &&& registered.contains("rtpmanager"@)
            &&& registered.contains("rtp"@)
            &&& registered.contains("playback"@)
            &&& registered.contains("videoscale"@)
            &&& registered.contains("audioresample"@)
        },
{
    nothing_missing_means_all_registered(needed(), registered);
    assert forall|i: int| 0 <= i < needed().len() implies needed().contains(
        #[trigger] needed()[i],
    ) by {}
    if missing(needed(), registered).len() == 0 {
        assert(registered.contains(needed()[0]));
        assert(registered.contains(needed()[1]));
        assert(registered.contains(needed()[2]));
        assert(registered.contains(needed()[3]));
        assert(registered.contains(needed()[4]));
        assert(registered.contains(needed()[5]));
        assert(registered.contains(needed()[6]));
        assert(registered.contains(needed()[7]));
        assert(registered.contains(needed()[8]));
        assert(registered.contains(needed()[9]));
        assert(registered.contains(needed()[10]));
        assert(registered.contains(needed()[11]));
        assert(registered.contains(needed()[12]));
        assert(registered.contains(needed()[13]));
        assert(registered.contains(needed()[14]));
        assert(registered.contains(needed()[15]));
    }
}

/// What is missing of a registry are those of the sixteen plugins that it lacks, in this order.
pub proof fn missing_plugins_stand_in_order(registered: Seq<Seq<char>>)
    ensures
        missing(needed(), registered) == seq![
            "videotestsrc"@,
            "audiotestsrc"@,
            "videoconvert"@,
            "audioconvert"@,
            "autodetect"@,
            "opus"@,
            "vpx"@,
            "webrtc"@,
            "nice"@,
            "dtls"@,
            "srtp"@,
            "rtpmanager"@,
            "rtp"@,
            "playback"@,
            "videoscale"@,
            "audioresample"@,
        ].filter(|name: Seq<char>| !registered.contains(name)),
{
}

/// What is missing is found name by name, in order: a name that is registered is passed over, one
/// that is not comes after those before it.
pub proof fn missing_names_keep_their_order(
    wanted: Seq<Seq<char>>,
    name: Seq<char>,
    registered: Seq<Seq<char>>,
)
    ensures
        missing(Seq::empty(), registered) == Seq::<Seq<char>>::empty(),
        registered.contains(name) ==> missing(wanted.push(name), registered) == missing(
            wanted,
            registered,
        ),
        !registered.contains(name) ==> missing(wanted.push(name), registered) == missing(
            wanted,
            registered,
        ).push(name),
{
    reveal(Seq::filter);
    assert(wanted.push(name).drop_last() == wanted);
}

/// What priming adds: the element that is referred to, and nothing where it is not.
pub proof fn priming_adds_what_is_referred_to(pipeline: Seq<char>)
    ensures
        occurs("webrtc."@, pipeline) && occurs("video."@, pipeline) ==> primed(pipeline) == pipeline
            + " webrtcbin name=webrtc"@ + " appsrc name=video"@,
        occurs("webrtc."@, pipeline) && !occurs("video."@, pipeline) ==> primed(pipeline)
            == pipeline + " webrtcbin name=webrtc"@,
        !occurs("webrtc."@, pipeline) && occurs("video."@, pipeline) ==> primed(pipeline)
            == pipeline + " appsrc name=video"@,
        !occurs("webrtc."@, pipeline) && !occurs("video."@, pipeline) ==> primed(pipeline)
            == pipeline,
{
    assert(pipeline + Seq::<char>::empty() == pipeline);
    assert(pipeline + " webrtcbin name=webrtc"@ + Seq::<char>::empty() == pipeline
        + " webrtcbin name=webrtc"@);
}

} // verus!
