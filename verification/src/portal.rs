//! The desktop portal: the order of the screencast handshake, what is asked of
//! the portal, and where its restore token is kept.
use vstd::prelude::*;
use vstd::utf8::encode_utf8;

verus! {

/// A path with one more relative component behind it.
pub open spec fn joined(base: Seq<u8>, name: Seq<u8>) -> Seq<u8> {
    if base.len() == 0 || base.last() == 0x2f {
        base + name
    } else {
        base.push(0x2f) + name
    }
}

/// The directory for a user's data: `$XDG_DATA_HOME`, or `.local/share` under
/// `$HOME` where that is not set.
pub open spec fn data_home(xdg_data_home: Option<Seq<u8>>, home: Option<Seq<u8>>) -> Seq<u8> {
    match xdg_data_home {
        Some(dir) => dir,
        None => joined(
            match home {
                Some(dir) => dir,
                None => Seq::empty(),
            },
            encode_utf8(".local/share"@),
        ),
    }
}

/// The directory that the restore token is kept in.
pub open spec fn spec_token_dir(
    xdg_data_home: Option<Seq<u8>>,
    home: Option<Seq<u8>>,
) -> Seq<u8> {
    joined(data_home(xdg_data_home, home), encode_utf8("kwaymag"@))
}

/// The bytes behind an environment variable.
pub open spec fn bytes_of(var: Option<&[u8]>) -> Option<Seq<u8>> {
    match var {
        Some(bytes) => Some(bytes@),
        None => None,
    }
}

fn push_bytes(path: &mut Vec<u8>, bytes: &[u8])
    ensures
        final(path)@ == old(path)@ + bytes@,
{
    let ghost before = path@;
    let mut i: usize = 0;
    while i < bytes.len()
        invariant
            i <= bytes@.len(),
            path@ == before + bytes@.take(i as int),
        decreases bytes@.len() - i,
    {
        path.push(bytes[i]);
        assert(bytes@.take(i + 1) =~= bytes@.take(i as int).push(bytes@[i as int]));
        i += 1;
    }
    assert(bytes@.take(i as int) =~= bytes@);
}

fn push_name(path: &mut Vec<u8>, name: &str)
    ensures
        final(path)@ == joined(old(path)@, encode_utf8(name@)),
{
    if path.len() > 0 && path[path.len() - 1] != 0x2f {
        path.push(0x2f);
    }
    push_bytes(path, name.as_bytes());
}

/// The directory that the restore token is kept in, given the values of
/// `XDG_DATA_HOME` and `HOME`. Paths are bytes, as the system has them.
pub fn token_dir(xdg_data_home: Option<&[u8]>, home: Option<&[u8]>) -> (dir: Vec<u8>)
    ensures
        dir@ == spec_token_dir(bytes_of(xdg_data_home), bytes_of(home)),
        xdg_data_home matches Some(base) ==> dir@ == joined(base@, encode_utf8("kwaymag"@)),
        xdg_data_home is None ==> (home matches Some(base) ==> dir@ == joined(
            joined(base@, encode_utf8(".local/share"@)),
            encode_utf8("kwaymag"@),
        )),
{
    let mut dir: Vec<u8> = Vec::new();
    match xdg_data_home {
        Some(base) => {
            push_bytes(&mut dir, base);
            assert(dir@ =~= base@);
        },
        None => {
            if let Some(base) = home {
                push_bytes(&mut dir, base);
                assert(dir@ =~= base@);
            }
            push_name(&mut dir, ".local/share");
        },
    }
    push_name(&mut dir, "kwaymag");
    dir
}

/// The file that the restore token is kept in.
pub fn token_path(xdg_data_home: Option<&[u8]>, home: Option<&[u8]>) -> (path: Vec<u8>)
    ensures
        path@ == joined(
            spec_token_dir(bytes_of(xdg_data_home), bytes_of(home)),
            encode_utf8("restore_token"@),
        ),
{
    let mut path: Vec<u8> = token_dir(xdg_data_home, home);
    push_name(&mut path, "restore_token");
    path
}

/// A name behind a directory ends the path, after a slash unless there is no
/// directory.
pub proof fn lemma_joined(base: Seq<u8>, name: Seq<u8>)
    ensures
        joined(base, name).skip(joined(base, name).len() - name.len()) == name,
        joined(base, name).take(base.len() as int) == base,
        base.len() > 0 ==> joined(base, name)[joined(base, name).len() - name.len() - 1] == 0x2f,
{
    let path = joined(base, name);
    assert(path.skip(path.len() - name.len()) =~= name);
    assert(path.take(base.len() as int) =~= base);
}

/// A path is lengthened by the name and by one slash, or by the name alone where
/// there is nothing before it or a slash already.
pub proof fn lemma_joined_by_one_slash(base: Seq<u8>, name: Seq<u8>)
    ensures
        base.len() == 0 ==> joined(base, name) == name,
        base.len() > 0 && base[base.len() - 1] == 0x2f ==> joined(base, name) == base + name,
        base.len() > 0 && base[base.len() - 1] != 0x2f ==> joined(base, name) == base + seq![0x2fu8]
            + name,
{
    assert(base.len() == 0 ==> joined(base, name) =~= name);
    assert(base.push(0x2f) =~= base + seq![0x2fu8]);
}

/// A variable that is set counts with all its bytes, even if it is set to nothing.
pub proof fn lemma_set_is_set(bytes: &[u8])
    ensures
        bytes_of(Some(bytes)) == Some(bytes@),
        bytes_of(None) is None,
{
}

/// The token's directory is `kwaymag` under `XDG_DATA_HOME`, if that is set, even
/// if to nothing; else under `.local/share` in `HOME`, or in no directory at all
/// where `HOME` is not set either.
pub proof fn lemma_where_the_token_is(xdg: Seq<u8>, home: Seq<u8>, any: Option<Seq<u8>>)
    ensures
        spec_token_dir(Some(xdg), any) == joined(xdg, encode_utf8("kwaymag"@)),
        spec_token_dir(None, Some(home)) == joined(
            joined(home, encode_utf8(".local/share"@)),
            encode_utf8("kwaymag"@),
        ),
        spec_token_dir(None, None) == spec_token_dir(None, Some(Seq::empty())),
        data_home(Some(xdg), any) == xdg,
        data_home(None, Some(home)) == joined(home, encode_utf8(".local/share"@)),
{
}

/// Once `XDG_DATA_HOME` is set, `HOME` does not matter.
pub proof fn lemma_xdg_data_home_wins(
    xdg_data_home: Seq<u8>,
    home: Option<Seq<u8>>,
    other: Option<Seq<u8>>,
)
    ensures
        spec_token_dir(Some(xdg_data_home), home) == spec_token_dir(Some(xdg_data_home), other),
{
}

/// How the cursor is shown in the stream.
#[derive(Clone, Copy, Debug, PartialEq, Eq, Structural)]
pub enum CursorMode {
    Hidden,
    Embedded,
    Metadata,
}

/// What is captured.
#[derive(Clone, Copy, Debug, PartialEq, Eq, Structural)]
pub enum SourceType {
    Monitor,
    Window,
    Virtual,
}

/// For how long the user's choice holds.
#[derive(Clone, Copy, Debug, PartialEq, Eq, Structural)]
pub enum PersistMode {
    DoNot,
    Application,
    ExplicitlyRevoked,
}

/// The sources that the portal is asked to let the user choose from.
#[derive(Debug, PartialEq, Eq)]
pub struct SourceRequest {
    pub cursor: CursorMode,
    /// The kinds of source on offer.
    pub sources: Vec<SourceType>,
    pub multiple: bool,
    pub restore_token: Option<String>,
    pub persist: PersistMode,
}

/// A request for a screen or a window, without the cursor, that reuses an earlier
/// choice if there is a token of one, and makes the new one hold until it is
/// revoked.
pub open spec fn is_source_request(request: SourceRequest, token: Option<String>) -> bool {
    &&& request.cursor is Hidden
    &&& request.sources@ == seq![SourceType::Monitor, SourceType::Window]
    &&& request.multiple
    &&& request.restore_token == token
    &&& request.persist is ExplicitlyRevoked
}

fn source_request(token: Option<String>) -> (request: SourceRequest)
    ensures
        is_source_request(request, token),
{
    let sources: Vec<SourceType> = vec![SourceType::Monitor, SourceType::Window];
    assert(sources@ =~= seq![SourceType::Monitor, SourceType::Window]);
    SourceRequest {
        cursor: CursorMode::Hidden,
        sources,
        multiple: true,
        restore_token: token,
        persist: PersistMode::ExplicitlyRevoked,
    }
}

/// What the portal is asked for: one or several screens or windows, both on
/// offer, without the cursor, to be remembered until that is revoked; and the
/// token is handed on as it is.
pub proof fn lemma_source_request(request: SourceRequest, token: Option<String>)
    requires
        is_source_request(request, token),
    ensures
        request.cursor == CursorMode::Hidden,
        request.sources@.len() == 2,
        request.sources@[0] == SourceType::Monitor,
        request.sources@[1] == SourceType::Window,
        request.multiple,
        request.restore_token == token,
        request.persist == PersistMode::ExplicitlyRevoked,
{
}

/// Why the handshake failed.
#[derive(Clone, Copy, Debug, PartialEq, Eq, Structural)]
pub enum PortalError {
    Connect,
    CreateSession,
    SelectSources,
    Start,
    Denied,
    NoStreams,
    OpenRemote,
}

impl PortalError {
    pub open spec fn spec_message(self) -> Seq<char> {
        match self {
            PortalError::Connect => "connect to ScreenCast portal"@,
            PortalError::CreateSession => "create session"@,
            PortalError::SelectSources => "select_sources"@,
            PortalError::Start => "start screencast"@,
            PortalError::Denied => "screencast start denied"@,
            PortalError::NoStreams => "no streams in portal response"@,
            PortalError::OpenRemote => "open_pipe_wire_remote"@,
        }
    }

    /// The error in words.
    pub fn message(self) -> (text: &'static str)
        ensures
            text@ == self.spec_message(),
            self is Connect ==> text@ == "connect to ScreenCast portal"@,
            self is CreateSession ==> text@ == "create session"@,
            self is SelectSources ==> text@ == "select_sources"@,
            self is Start ==> text@ == "start screencast"@,
            self is Denied ==> text@ == "screencast start denied"@,
            self is NoStreams ==> text@ == "no streams in portal response"@,
            self is OpenRemote ==> text@ == "open_pipe_wire_remote"@,
    {
        match self {
            PortalError::Connect => "connect to ScreenCast portal",
            PortalError::CreateSession => "create session",
            PortalError::SelectSources => "select_sources",
            PortalError::Start => "start screencast",
            PortalError::Denied => "screencast start denied",
            PortalError::NoStreams => "no streams in portal response",
            PortalError::OpenRemote => "open_pipe_wire_remote",
        }
    }
}

/// What to do next in the handshake.
#[derive(Debug, PartialEq, Eq)]
pub enum PortalAction {
    Connect,
    CreateSession,
    ReadToken,
    SelectSources(SourceRequest),
    Start,
    SaveToken(String),
    OpenRemote,
    Finish { node_id: u32 },
    Fail(PortalError),
}

/// What came of it.
#[derive(Debug, PartialEq, Eq)]
pub enum PortalEvent {
    /// It worked.
    Done,
    /// The token file was read, or could not be.
    Token(Option<String>),
    /// The screencast has started, with these PipeWire nodes as its streams.
    Response { restore_token: Option<String>, streams: Vec<u32> },
    /// The portal answered that it may not start.
    Denied,
    /// It did not work.
    Failed,
}

/// How far the handshake has come: the step whose outcome is awaited.
#[derive(Clone, Copy, Debug, PartialEq, Eq, Structural)]
pub enum PortalState {
    Connecting,
    CreatingSession,
    ReadingToken,
    SelectingSources,
    Starting,
    SavingToken { first: Option<u32> },
    OpeningRemote { node_id: u32 },
    Finished { node_id: u32 },
    Failed(PortalError),
}

/// The handshake has failed for a reason.
pub open spec fn fails_with(post: PortalState, action: PortalAction, error: PortalError) -> bool {
    post == PortalState::Failed(error) && action == PortalAction::Fail(error)
}

/// The first stream, if there is one, is opened.
pub open spec fn opens(post: PortalState, action: PortalAction, node_id: Option<u32>) -> bool {
    match node_id {
        Some(node_id) => post == (PortalState::OpeningRemote { node_id }) && action is OpenRemote,
        None => fails_with(post, action, PortalError::NoStreams),
    }
}

/// The first of several nodes.
pub open spec fn first_node(streams: Seq<u32>) -> Option<u32> {
    if streams.len() > 0 {
        Some(streams[0])
    } else {
        None
    }
}

impl PortalState {
    /// The handshake begins by connecting to the portal.
    pub fn start() -> (next: (PortalState, PortalAction))
        ensures
            next.0 is Connecting,
            next.1 is Connect,
    {
        (PortalState::Connecting, PortalAction::Connect)
    }

    /// How many steps may still follow.
    pub open spec fn steps_left(self) -> nat {
        match self {
            PortalState::Connecting => 7,
            PortalState::CreatingSession => 6,
            PortalState::ReadingToken => 5,
            PortalState::SelectingSources => 4,
            PortalState::Starting => 3,
            PortalState::SavingToken { first } => 2,
            PortalState::OpeningRemote { node_id } => 1,
            PortalState::Finished { node_id } => 0,
            PortalState::Failed(error) => 0,
        }
    }

    /// An outcome takes this state to `post`, and `action` is next. A step that
    /// did not work ends the handshake, except that a token need be neither read
    /// nor saved. The token that the portal gives is saved before its streams
    /// are looked at.
    pub open spec fn portal_step(
        self,
        event: PortalEvent,
        post: PortalState,
        action: PortalAction,
    ) -> bool {
        match self {
            PortalState::Connecting => if event is Done {
                post is CreatingSession && action is CreateSession
            } else {
                fails_with(post, action, PortalError::Connect)
            },
            PortalState::CreatingSession => if event is Done {
                post is ReadingToken && action is ReadToken
            } else {
                fails_with(post, action, PortalError::CreateSession)
            },
            PortalState::ReadingToken => {
                &&& post is SelectingSources
                &&& action matches PortalAction::SelectSources(request)
                &&& is_source_request(
                    request,
                    match event {
                        PortalEvent::Token(token) => token,
                        _ => None,
                    },
                )
            },
            PortalState::SelectingSources => if event is Done {
                post is Starting && action is Start
            } else {
                fails_with(post, action, PortalError::SelectSources)
            },
            PortalState::Starting => match event {
                PortalEvent::Response { restore_token, streams } => match restore_token {
                    Some(token) => {
                        &&& post == (PortalState::SavingToken { first: first_node(streams@) })
                        &&& action == PortalAction::SaveToken(token)
                    },
                    None => opens(post, action, first_node(streams@)),
                },
                PortalEvent::Denied => fails_with(post, action, PortalError::Denied),
                _ => fails_with(post, action, PortalError::Start),
            },
            PortalState::SavingToken { first } => opens(post, action, first),
            PortalState::OpeningRemote { node_id } => if event is Done {
                post == (PortalState::Finished { node_id }) && action == (PortalAction::Finish {
                    node_id,
                })
            } else {
                fails_with(post, action, PortalError::OpenRemote)
            },
            PortalState::Finished { node_id } => {
                post == self && action == (PortalAction::Finish { node_id })
            },
            PortalState::Failed(error) => fails_with(post, action, error),
        }
    }

    fn open(node_id: Option<u32>) -> (next: (PortalState, PortalAction))
        ensures
            opens(next.0, next.1, node_id),
    {
        match node_id {
            Some(node_id) => (PortalState::OpeningRemote { node_id }, PortalAction::OpenRemote),
            None => Self::fail(PortalError::NoStreams),
        }
    }

    fn fail(error: PortalError) -> (next: (PortalState, PortalAction))
        ensures
            fails_with(next.0, next.1, error),
    {
        (PortalState::Failed(error), PortalAction::Fail(error))
    }

    /// Takes the outcome of the step that was awaited.
    pub fn step(self, event: PortalEvent) -> (next: (PortalState, PortalAction))
        ensures
            self.portal_step(event, next.0, next.1),
    {
        match self {
            PortalState::Connecting => match event {
                PortalEvent::Done => (PortalState::CreatingSession, PortalAction::CreateSession),
                _ => Self::fail(PortalError::Connect),
            },
            PortalState::CreatingSession => match event {
                PortalEvent::Done => (PortalState::ReadingToken, PortalAction::ReadToken),
                _ => Self::fail(PortalError::CreateSession),
            },
            PortalState::ReadingToken => {
                let token: Option<String> = match event {
                    PortalEvent::Token(token) => token,
                    _ => None,
                };
                (PortalState::SelectingSources, PortalAction::SelectSources(source_request(token)))
            },
            PortalState::SelectingSources => match event {
                PortalEvent::Done => (PortalState::Starting, PortalAction::Start),
                _ => Self::fail(PortalError::SelectSources),
            },
            PortalState::Starting => match event {
                PortalEvent::Response { restore_token, streams } => {
                    let first: Option<u32> = if streams.len() > 0 {
                        Some(streams[0])
                    } else {
                        None
                    };
                    match restore_token {
                        Some(token) => (
                            PortalState::SavingToken { first },
                            PortalAction::SaveToken(token),
                        ),
                        None => Self::open(first),
                    }
                },
                PortalEvent::Denied => Self::fail(PortalError::Denied),
                _ => Self::fail(PortalError::Start),
            },
            PortalState::SavingToken { first } => Self::open(first),
            PortalState::OpeningRemote { node_id } => match event {
                PortalEvent::Done => (
                    PortalState::Finished { node_id },
                    PortalAction::Finish { node_id },
                ),
                _ => Self::fail(PortalError::OpenRemote),
            },
            PortalState::Finished { node_id } => (self, PortalAction::Finish { node_id }),
            PortalState::Failed(error) => Self::fail(error),
        }
    }
}

/// Of several streams the first is taken, whichever and however many follow it.
pub proof fn lemma_first_node(streams: Seq<u32>)
    ensures
        streams.len() > 0 ==> first_node(streams) == Some(streams[0]),
        streams.len() == 0 ==> first_node(streams) is None,
{
}

/// The steps that take no answer but that they worked: each is followed by the
/// next of them, and ends the handshake with its own error on any other outcome.
pub proof fn lemma_steps_that_have_to_work(
    pre: PortalState,
    event: PortalEvent,
    post: PortalState,
    action: PortalAction,
)
    requires
        pre.portal_step(event, post, action),
    ensures
        pre is Connecting ==> if event == PortalEvent::Done {
            post == PortalState::CreatingSession && action == PortalAction::CreateSession
        } else {
            post == PortalState::Failed(PortalError::Connect) && action == PortalAction::Fail(
                PortalError::Connect,
            )
        },
        pre is CreatingSession ==> if event == PortalEvent::Done {
            post == PortalState::ReadingToken && action == PortalAction::ReadToken
        } else {
            post == PortalState::Failed(PortalError::CreateSession) && action
                == PortalAction::Fail(PortalError::CreateSession)
        },
        pre is SelectingSources ==> if event == PortalEvent::Done {
            post == PortalState::Starting && action == PortalAction::Start
        } else {
            post == PortalState::Failed(PortalError::SelectSources) && action
                == PortalAction::Fail(PortalError::SelectSources)
        },
        pre matches PortalState::OpeningRemote { node_id } ==> if event == PortalEvent::Done {
            post == (PortalState::Finished { node_id }) && action == (PortalAction::Finish {
                node_id,
            })
        } else {
            post == PortalState::Failed(PortalError::OpenRemote) && action == PortalAction::Fail(
                PortalError::OpenRemote,
            )
        },
{
}

/// Whatever came of reading the token, the sources are asked for next: with the
/// token that was read, and with none if none was.
pub proof fn lemma_token_is_handed_on(event: PortalEvent, post: PortalState, action: PortalAction)
    requires
        PortalState::ReadingToken.portal_step(event, post, action),
    ensures
        post == PortalState::SelectingSources,
        action matches PortalAction::SelectSources(request) && {
            &&& event matches PortalEvent::Token(token) ==> request.restore_token == token
            &&& event !is Token ==> request.restore_token is None
            &&& request.cursor == CursorMode::Hidden
            &&& request.sources@ == seq![SourceType::Monitor, SourceType::Window]
            &&& request.multiple
            &&& request.persist == PersistMode::ExplicitlyRevoked
        },
{
}

/// What the answer to the start leads to: a token is saved, whatever the streams
/// are; without one the first stream is opened at once; a refusal and a failure
/// are told apart.
pub proof fn lemma_answer_to_the_start(event: PortalEvent, post: PortalState, action: PortalAction)
    requires
        PortalState::Starting.portal_step(event, post, action),
    ensures
        event matches PortalEvent::Response { restore_token, streams } ==> {
            &&& restore_token matches Some(token) ==> action == PortalAction::SaveToken(token)
                && post is SavingToken
            &&& restore_token is None && streams@.len() > 0 ==> action == PortalAction::OpenRemote
                && post == (PortalState::OpeningRemote { node_id: streams@[0] })
            &&& restore_token is None && streams@.len() == 0 ==> action == PortalAction::Fail(
                PortalError::NoStreams,
            ) && post == PortalState::Failed(PortalError::NoStreams)
        },
        event is Denied ==> action == PortalAction::Fail(PortalError::Denied) && post
            == PortalState::Failed(PortalError::Denied),
        event !is Response && event !is Denied ==> action == PortalAction::Fail(PortalError::Start)
            && post == PortalState::Failed(PortalError::Start),
{
}

/// Whatever came of saving the token, the handshake goes on with the stream that
/// was the first, and fails only for want of one.
pub proof fn lemma_saving_does_not_matter(
    first: Option<u32>,
    event: PortalEvent,
    post: PortalState,
    action: PortalAction,
)
    requires
        (PortalState::SavingToken { first }).portal_step(event, post, action),
    ensures
        first matches Some(node_id) ==> post == (PortalState::OpeningRemote { node_id }) && action
            == PortalAction::OpenRemote,
        first is None ==> post == PortalState::Failed(PortalError::NoStreams) && action
            == PortalAction::Fail(PortalError::NoStreams),
{
}

/// A handshake that has ended says so again, whatever it is told.
pub proof fn lemma_the_end_stays(
    pre: PortalState,
    event: PortalEvent,
    post: PortalState,
    action: PortalAction,
)
    requires
        pre.portal_step(event, post, action),
    ensures
        pre matches PortalState::Finished { node_id } ==> post == pre && action == (
        PortalAction::Finish { node_id }),
        pre matches PortalState::Failed(error) ==> post == pre && action == PortalAction::Fail(
            error,
        ),
{
}

/// The handshake comes to an end: every outcome leaves fewer steps, until it is
/// finished or has failed, and that it stays.
pub proof fn lemma_handshake_ends(
    pre: PortalState,
    event: PortalEvent,
    post: PortalState,
    action: PortalAction,
)
    requires
        pre.portal_step(event, post, action),
    ensures
        pre.steps_left() > 0 ==> post.steps_left() < pre.steps_left(),
        pre.steps_left() == 0 ==> post == pre,
        post.steps_left() == 0 <==> action is Finish || action is Fail,
{
}

/// A screencast that has started with at least one stream is opened at the first
/// of them, whether or not a token had to be saved and whether or not that
/// worked; and if the remote opens, the handshake ends with that node.
pub proof fn lemma_first_stream_is_opened(
    restore_token: Option<String>,
    streams: Vec<u32>,
    s1: PortalState,
    a1: PortalAction,
    saved: PortalEvent,
    s2: PortalState,
    a2: PortalAction,
    s3: PortalState,
    a3: PortalAction,
)
    requires
        streams@.len() > 0,
        PortalState::Starting.portal_step(
            PortalEvent::Response { restore_token, streams },
            s1,
            a1,
        ),
        if restore_token is Some {
            s1.portal_step(saved, s2, a2)
        } else {
            s2 == s1 && a2 == a1
        },
        s2.portal_step(PortalEvent::Done, s3, a3),
    ensures
        restore_token is Some ==> a1 == PortalAction::SaveToken(restore_token->0),
        a2 is OpenRemote,
        a3 == (PortalAction::Finish { node_id: streams@[0] }),
{
}

/// The user's choice is reused: the token that one handshake saves is, when the
/// next one reads it back, what the portal is asked with. Without a saved token
/// it is asked with none, and so prompts the user.
pub proof fn lemma_saved_token_is_reused(
    token: String,
    streams: Vec<u32>,
    s1: PortalState,
    a1: PortalAction,
    saved: String,
    s2: PortalState,
    a2: PortalAction,
    s3: PortalState,
    a3: PortalAction,
)
    requires
        PortalState::Starting.portal_step(
            PortalEvent::Response { restore_token: Some(token), streams },
            s1,
            a1,
        ),
        a1 == PortalAction::SaveToken(saved),
        PortalState::ReadingToken.portal_step(PortalEvent::Token(Some(saved)), s2, a2),
        PortalState::ReadingToken.portal_step(PortalEvent::Token(None), s3, a3),
    ensures
        a2 matches PortalAction::SelectSources(request) && request.restore_token == Some(token),
        a3 matches PortalAction::SelectSources(request) && request.restore_token is None,
{
}

/// Without a stream the handshake fails, but not before a token is saved.
pub proof fn lemma_token_is_saved_without_streams(
    restore_token: Option<String>,
    streams: Vec<u32>,
    s1: PortalState,
    a1: PortalAction,
    saved: PortalEvent,
    s2: PortalState,
    a2: PortalAction,
)
    requires
        streams@.len() == 0,
        PortalState::Starting.portal_step(
            PortalEvent::Response { restore_token, streams },
            s1,
            a1,
        ),
        if restore_token is Some {
            s1.portal_step(saved, s2, a2)
        } else {
            s2 == s1 && a2 == a1
        },
    ensures
        restore_token is Some ==> a1 == PortalAction::SaveToken(restore_token->0),
        a2 == PortalAction::Fail(PortalError::NoStreams),
{
}

} // verus!
