//! The decisions of the session that commits an update to the directory service. The caller
//! owns the connection: it performs each action that the client names and reports what
//! came of it.

use vstd::prelude::*;
use crate::descriptor::{
    update_for, valid_principal, SecurityDescriptorUpdate, SecurityDescriptorUpdateView,
};
use crate::resolver::{
    filled, resolution, resolve, GrantError, GrantErrorView, PermissionRequest,
    PermissionRequestView,
};

verus! {

/// The attribute that holds the security descriptor of an entry.
pub const SECURITY_DESCRIPTOR_ATTRIBUTE: &'static str = "nTSecurityDescriptor";

/// The attribute that holds the control flags of the security descriptor.
pub const SD_FLAGS_ATTRIBUTE: &'static str = "sdflags";

/// The result code with which the server reports success.
pub const RESULT_SUCCESS: u32 = 0;

/// Why a session failed.
#[derive(Debug, PartialEq, Eq)]
pub enum ClientError {
    /// Neither the caller nor the environment names a credential cache.
    MissingCredentialCache,
    /// The connection could not be opened, or broke; with the transport's diagnostic.
    ConnectionError(String),
    /// The bind was refused; with the transport's diagnostic.
    AuthenticationFailure(String),
    /// The server answered the modify with a result code other than success.
    ModifyRejected { result_code: u32, target_dn: String },
}

/// An error as its contracts see it.
pub enum ClientErrorView {
    MissingCredentialCache,
    ConnectionError(Seq<char>),
    AuthenticationFailure(Seq<char>),
    ModifyRejected { result_code: u32, target_dn: Seq<char> },
}

impl View for ClientError {
    type V = ClientErrorView;

    open spec fn view(&self) -> ClientErrorView {
        match self {
            ClientError::MissingCredentialCache => ClientErrorView::MissingCredentialCache,
            ClientError::ConnectionError(diagnostic) => ClientErrorView::ConnectionError(
                diagnostic@,
            ),
            ClientError::AuthenticationFailure(diagnostic) => ClientErrorView::AuthenticationFailure(
                diagnostic@,
            ),
            ClientError::ModifyRejected { result_code, target_dn } => ClientErrorView::ModifyRejected {
                result_code: *result_code,
                target_dn: target_dn@,
            },
        }
    }
}

impl Clone for ClientError {
    fn clone(&self) -> (r: Self)
        ensures
            r@ == self@,
    {
        match self {
            ClientError::MissingCredentialCache => ClientError::MissingCredentialCache,
            ClientError::ConnectionError(diagnostic) => ClientError::ConnectionError(
                diagnostic.clone(),
            ),
            ClientError::AuthenticationFailure(diagnostic) => ClientError::AuthenticationFailure(
                diagnostic.clone(),
            ),
            ClientError::ModifyRejected { result_code, target_dn } => ClientError::ModifyRejected {
                result_code: *result_code,
                target_dn: target_dn.clone(),
            },
        }
    }
}

/// The location of the credential cache: the one that the caller names, else the one that
/// the environment names.
pub open spec fn credential_cache_of(
    explicit: Option<Seq<char>>,
    environment: Option<Seq<char>>,
) -> Result<Seq<char>, ClientErrorView> {
    match explicit {
        Some(path) => Ok(path),
        None => match environment {
            Some(path) => Ok(path),
            None => Err(ClientErrorView::MissingCredentialCache),
        },
    }
}

/// The characters of an optional string slice.
pub open spec fn slice_text(s: Option<&str>) -> Option<Seq<char>> {
    match s {
        Some(s) => Some(s@),
        None => None,
    }
}

/// Picks the location of the credential cache: `explicit` where the caller gave one, else
/// `environment`, the value of the environment's variable, else the session cannot start.
pub fn resolve_credential_cache(explicit: Option<&str>, environment: Option<&str>) -> (r: Result<
    String,
    ClientError,
>)
    ensures
        match r {
            Ok(path) => credential_cache_of(slice_text(explicit), slice_text(environment)) == Ok::<
                Seq<char>,
                ClientErrorView,
            >(path@),
            Err(error) => credential_cache_of(slice_text(explicit), slice_text(environment))
                == Err::<Seq<char>, ClientErrorView>(error@),
        },
{
    match explicit {
        Some(path) => Ok(path.to_owned()),
        None => match environment {
            Some(path) => Ok(path.to_owned()),
            None => Err(ClientError::MissingCredentialCache),
        },
    }
}

/// One attribute of an entry and the value that replaces all of its values.
#[derive(Debug, Clone, PartialEq, Eq)]
pub struct AttributeReplacement {
    pub attribute: String,
    pub value: String,
}

/// One modify request: the entry and the replacements that the server applies together.
#[derive(Debug, Clone, PartialEq, Eq)]
pub struct ModifyRequest {
    pub target_dn: String,
    pub replacements: Vec<AttributeReplacement>,
}

/// A modify request as its contracts see it: the entry, and each replacement as the pair
/// of its attribute and its value.
pub struct ModifyRequestView {
    pub target_dn: Seq<char>,
    pub replacements: Seq<(Seq<char>, Seq<char>)>,
}

impl View for ModifyRequest {
    type V = ModifyRequestView;

    open spec fn view(&self) -> ModifyRequestView {
        ModifyRequestView {
            target_dn: self.target_dn@,
            replacements: self.replacements@.map_values(
                |r: AttributeReplacement| (r.attribute@, r.value@),
            ),
        }
    }
}

/// The request that commits `update` to `target_dn`: one request that replaces the security
/// descriptor by the entry string and the control flags by their decimal value.
pub open spec fn modify_request(
    target_dn: Seq<char>,
    update: SecurityDescriptorUpdateView,
) -> ModifyRequestView {
    ModifyRequestView {
        target_dn,
        replacements: seq![
            (SECURITY_DESCRIPTOR_ATTRIBUTE@, update.ace_string),
            (SD_FLAGS_ATTRIBUTE@, update.sd_control_flags),
        ],
    }
}

/// Builds the one request that commits `update` to `target_dn`.
pub fn modify_dacl(target_dn: &str, update: &SecurityDescriptorUpdate) -> (r: ModifyRequest)
    ensures
        r@ == modify_request(target_dn@, update@),
{
    let mut replacements: Vec<AttributeReplacement> = Vec::new();
    replacements.push(
        AttributeReplacement {
            attribute: SECURITY_DESCRIPTOR_ATTRIBUTE.to_owned(),
            value: update.ace_string().to_owned(),
        },
    );
    replacements.push(
        AttributeReplacement {
            attribute: SD_FLAGS_ATTRIBUTE.to_owned(),
            value: update.sd_control_flags().to_owned(),
        },
    );
    let r = ModifyRequest { target_dn: target_dn.to_owned(), replacements };
    assert(r@.replacements =~= modify_request(target_dn@, update@).replacements);
    r
}

/// What the server's answer to the modify of `target_dn` means: success only for the result
/// code of success, else a rejection that carries the code.
pub open spec fn modify_outcome_of(result_code: u32, target_dn: Seq<char>) -> Result<
    (),
    ClientErrorView,
> {
    if result_code == RESULT_SUCCESS {
        Ok(())
    } else {
        Err(ClientErrorView::ModifyRejected { result_code, target_dn })
    }
}

/// Judges the result code with which the server answered the modify of `target_dn`.
pub fn modify_outcome(result_code: u32, target_dn: &str) -> (r: Result<(), ClientError>)
    ensures
        match r {
            Ok(_) => modify_outcome_of(result_code, target_dn@) == Ok::<(), ClientErrorView>(()),
            Err(error) => modify_outcome_of(result_code, target_dn@) == Err::<
                (),
                ClientErrorView,
            >(error@),
        },
{
    if result_code == RESULT_SUCCESS {
        Ok(())
    } else {
        Err(ClientError::ModifyRejected { result_code, target_dn: target_dn.to_owned() })
    }
}

/// Where a session stands.
#[derive(Debug, Clone, Copy, PartialEq, Eq, Structural)]
pub enum SessionState {
    Disconnected,
    Connected,
    Authenticated,
    Modified,
    Closed,
    Error,
}

/// What the caller reports of the action that it performed.
#[derive(Debug, Clone, PartialEq, Eq)]
pub enum SessionEvent {
    /// The connection was opened, the bind was accepted, or the session was released.
    Completed,
    /// The action failed; with the transport's diagnostic.
    Failed(String),
    /// The server answered the modify with this result code.
    ModifyResult(u32),
}

/// An event as its contracts see it.
pub enum SessionEventView {
    Completed,
    Failed(Seq<char>),
    ModifyResult(u32),
}

impl View for SessionEvent {
    type V = SessionEventView;

    open spec fn view(&self) -> SessionEventView {
        match self {
            SessionEvent::Completed => SessionEventView::Completed,
            SessionEvent::Failed(diagnostic) => SessionEventView::Failed(diagnostic@),
            SessionEvent::ModifyResult(result_code) => SessionEventView::ModifyResult(
                *result_code,
            ),
        }
    }
}

/// What the caller is to do next.
#[derive(Debug, PartialEq, Eq)]
pub enum SessionAction {
    /// Open a connection to this endpoint.
    Connect(String),
    /// Bind with the tickets of this credential cache.
    Authenticate(String),
    /// Send this one modify request.
    Modify(ModifyRequest),
    /// Release the session.
    Close,
    /// Nothing more: the session has ended, with this outcome.
    Finish(Result<(), ClientError>),
}

/// An action as its contracts see it.
pub enum SessionActionView {
    Connect(Seq<char>),
    Authenticate(Seq<char>),
    Modify(ModifyRequestView),
    Close,
    Finish(Result<(), ClientErrorView>),
}

impl View for SessionAction {
    type V = SessionActionView;

    open spec fn view(&self) -> SessionActionView {
        match self {
            SessionAction::Connect(uri) => SessionActionView::Connect(uri@),
            SessionAction::Authenticate(cache) => SessionActionView::Authenticate(cache@),
            SessionAction::Modify(request) => SessionActionView::Modify(request@),
            SessionAction::Close => SessionActionView::Close,
            SessionAction::Finish(Ok(_)) => SessionActionView::Finish(Ok(())),
            SessionAction::Finish(Err(error)) => SessionActionView::Finish(Err(error@)),
        }
    }
}

/// A client as its contracts see it.
pub struct ClientView {
    pub state: SessionState,
    /// Whether a connection is open that has not been released.
    pub session_open: bool,
    pub uri: Seq<char>,
    pub credential_cache: Seq<char>,
    pub target_dn: Seq<char>,
    pub update: SecurityDescriptorUpdateView,
    /// Why the session failed, once it has.
    pub failure: Option<ClientErrorView>,
}

impl ClientView {
    /// The client before anything was done.
    pub open spec fn initial(
        uri: Seq<char>,
        credential_cache: Seq<char>,
        target_dn: Seq<char>,
        update: SecurityDescriptorUpdateView,
    ) -> ClientView {
        ClientView {
            state: SessionState::Disconnected,
            session_open: false,
            uri,
            credential_cache,
            target_dn,
            update,
            failure: None,
        }
    }

    /// What holds of every client: a connection is open from the connect to the release, and
    /// a failure is held exactly in the error state.
    pub open spec fn well_formed(self) -> bool {
        &&& (self.state == SessionState::Error <==> self.failure is Some)
        &&& (self.state == SessionState::Connected || self.state == SessionState::Authenticated
            || self.state == SessionState::Modified ==> self.session_open)
        &&& (self.state == SessionState::Disconnected || self.state == SessionState::Closed
            ==> !self.session_open)
    }

    /// The client in the error state, with `failure`.
    pub open spec fn failed(self, failure: ClientErrorView) -> ClientView {
        ClientView { state: SessionState::Error, failure: Some(failure), ..self }
    }

    /// The client in `state`.
    pub open spec fn moved_to(self, state: SessionState) -> ClientView {
        ClientView { state, ..self }
    }

    /// The client with its connection released, or never opened.
    pub open spec fn released(self) -> ClientView {
        ClientView { session_open: false, ..self }
    }

    /// The client with its connection open.
    pub open spec fn opened(self) -> ClientView {
        ClientView { session_open: true, ..self }
    }

    /// What the caller is to do next.
    pub open spec fn pending(self) -> SessionActionView {
        match self.state {
            SessionState::Disconnected => SessionActionView::Connect(self.uri),
            SessionState::Connected => SessionActionView::Authenticate(self.credential_cache),
            SessionState::Authenticated => SessionActionView::Modify(
                modify_request(self.target_dn, self.update),
            ),
            SessionState::Modified => SessionActionView::Close,
            SessionState::Closed => SessionActionView::Finish(Ok(())),
            SessionState::Error => if self.session_open {
                SessionActionView::Close
            } else {
                match self.failure {
                    Some(failure) => SessionActionView::Finish(Err(failure)),
                    None => SessionActionView::Finish(Ok(())),
                }
            },
        }
    }

    /// The client after the caller reported `event` of the pending action. An event that
    /// cannot answer the pending action changes nothing.
    pub open spec fn step(self, event: SessionEventView) -> ClientView {
        match (self.state, event) {
            (SessionState::Disconnected, SessionEventView::Completed) => self.moved_to(
                SessionState::Connected,
            ).opened(),
            (SessionState::Disconnected, SessionEventView::Failed(diagnostic)) => self.failed(
                ClientErrorView::ConnectionError(diagnostic),
            ),
            (SessionState::Connected, SessionEventView::Completed) => self.moved_to(
                SessionState::Authenticated,
            ),
            (SessionState::Connected, SessionEventView::Failed(diagnostic)) => self.failed(
                ClientErrorView::AuthenticationFailure(diagnostic),
            ),
            (SessionState::Authenticated, SessionEventView::ModifyResult(result_code)) => {
                match modify_outcome_of(result_code, self.target_dn) {
                    Ok(_) => self.moved_to(SessionState::Modified),
                    Err(failure) => self.failed(failure),
                }
            },
            (SessionState::Authenticated, SessionEventView::Failed(diagnostic)) => self.failed(
                ClientErrorView::ConnectionError(diagnostic),
            ),
            (SessionState::Modified, SessionEventView::Completed) => self.moved_to(
                SessionState::Closed,
            ).released(),
            (SessionState::Modified, SessionEventView::Failed(_)) => self.moved_to(
                SessionState::Closed,
            ).released(),
            (SessionState::Error, SessionEventView::Completed) => self.released(),
            (SessionState::Error, SessionEventView::Failed(_)) => self.released(),
            _ => self,
        }
    }
}

/// How far a session has come. A failed session keeps its failure, and knows whether its
/// connection is still to be released.
#[derive(Debug)]
enum Phase {
    Disconnected,
    Connected,
    Authenticated,
    Modified,
    Closed,
    Failed { failure: ClientError, session_open: bool },
}

/// The client of one session: connect, bind, one modify, release.
#[derive(Debug)]
pub struct DirectoryModifyClient {
    phase: Phase,
    uri: String,
    credential_cache: String,
    target_dn: String,
    update: SecurityDescriptorUpdate,
}

impl View for DirectoryModifyClient {
    type V = ClientView;

    closed spec fn view(&self) -> ClientView {
        ClientView {
            state: match self.phase {
                Phase::Disconnected => SessionState::Disconnected,
                Phase::Connected => SessionState::Connected,
                Phase::Authenticated => SessionState::Authenticated,
                Phase::Modified => SessionState::Modified,
                Phase::Closed => SessionState::Closed,
                Phase::Failed { .. } => SessionState::Error,
            },
            session_open: match self.phase {
                Phase::Connected | Phase::Authenticated | Phase::Modified => true,
                Phase::Failed { session_open, .. } => session_open,
                _ => false,
            },
            uri: self.uri@,
            credential_cache: self.credential_cache@,
            target_dn: self.target_dn@,
            update: self.update@,
            failure: match self.phase {
                Phase::Failed { failure, .. } => Some(failure@),
                _ => None,
            },
        }
    }
}

impl DirectoryModifyClient {
    /// A client that is to commit `update` to `target_dn` at the endpoint `uri`, bound with
    /// the tickets of `credential_cache`. Nothing has been done yet.
    pub fn new(
        uri: &str,
        credential_cache: &str,
        target_dn: &str,
        update: SecurityDescriptorUpdate,
    ) -> (client: DirectoryModifyClient)
        ensures
            client@ == ClientView::initial(uri@, credential_cache@, target_dn@, update@),
    {
        DirectoryModifyClient {
            phase: Phase::Disconnected,
            uri: uri.to_owned(),
            credential_cache: credential_cache.to_owned(),
            target_dn: target_dn.to_owned(),
            update,
        }
    }

    /// Where the session stands.
    pub fn state(&self) -> (r: SessionState)
        ensures
            r == self@.state,
    {
        match self.phase {
            Phase::Disconnected => SessionState::Disconnected,
            Phase::Connected => SessionState::Connected,
            Phase::Authenticated => SessionState::Authenticated,
            Phase::Modified => SessionState::Modified,
            Phase::Closed => SessionState::Closed,
            Phase::Failed { .. } => SessionState::Error,
        }
    }

    /// What the caller is to do next.
    pub fn next_action(&self) -> (action: SessionAction)
        ensures
            self@.well_formed(),
            action@ == self@.pending(),
    {
        match &self.phase {
            Phase::Disconnected => SessionAction::Connect(self.uri.clone()),
            Phase::Connected => SessionAction::Authenticate(self.credential_cache.clone()),
            Phase::Authenticated => SessionAction::Modify(
                modify_dacl(self.target_dn.as_str(), &self.update),
            ),
            Phase::Modified => SessionAction::Close,
            Phase::Closed => SessionAction::Finish(Ok(())),
            Phase::Failed { failure, session_open } => {
                if *session_open {
                    SessionAction::Close
                } else {
                    SessionAction::Finish(Err(failure.clone()))
                }
            },
        }
    }

    /// Takes in what the caller reports of the pending action.
    pub fn handle(&mut self, event: SessionEvent)
        ensures
            old(self)@.well_formed(),
            final(self)@ == old(self)@.step(event@),
    {
        match (&self.phase, event) {
            (Phase::Disconnected, SessionEvent::Completed) => {
                self.phase = Phase::Connected;
            },
            (Phase::Disconnected, SessionEvent::Failed(diagnostic)) => {
                self.phase = Phase::Failed {
                    failure: ClientError::ConnectionError(diagnostic),
                    session_open: false,
                };
            },
            (Phase::Connected, SessionEvent::Completed) => {
                self.phase = Phase::Authenticated;
            },
            (Phase::Connected, SessionEvent::Failed(diagnostic)) => {
                self.phase = Phase::Failed {
                    failure: ClientError::AuthenticationFailure(diagnostic),
                    session_open: true,
                };
            },
            (Phase::Authenticated, SessionEvent::ModifyResult(result_code)) => {
                match modify_outcome(result_code, self.target_dn.as_str()) {
                    Ok(_) => {
                        self.phase = Phase::Modified;
                    },
                    Err(failure) => {
                        self.phase = Phase::Failed { failure, session_open: true };
                    },
                }
            },
            (Phase::Authenticated, SessionEvent::Failed(diagnostic)) => {
                self.phase = Phase::Failed {
                    failure: ClientError::ConnectionError(diagnostic),
                    session_open: true,
                };
            },
            (Phase::Modified, SessionEvent::Completed) => {
                self.phase = Phase::Closed;
            },
            (Phase::Modified, SessionEvent::Failed(_)) => {
                self.phase = Phase::Closed;
            },
            (Phase::Failed { failure, .. }, SessionEvent::Completed) => {
                self.phase = Phase::Failed { failure: failure.clone(), session_open: false };
            },
            (Phase::Failed { failure, .. }, SessionEvent::Failed(_)) => {
                self.phase = Phase::Failed { failure: failure.clone(), session_open: false };
            },
            _ => {},
        }
    }
}

/// What planning a grant comes to: the client of the session that commits it, with nothing
/// done yet, or the reason why the request or the principal is refused.
pub open spec fn planned(
    uri: Seq<char>,
    credential_cache: Seq<char>,
    target_dn: Seq<char>,
    principal: Seq<char>,
    request: PermissionRequestView,
    inheritance_enabled: bool,
) -> Result<ClientView, GrantErrorView> {
    match resolution(request) {
        Err(error) => Err(error),
        Ok(grant) => if valid_principal(principal) {
            Ok(
                ClientView::initial(
                    uri,
                    credential_cache,
                    target_dn,
                    update_for(grant, principal, inheritance_enabled),
                ),
            )
        } else {
            Err(GrantErrorView::MalformedPrincipal)
        },
    }
}

/// Plans the grant of `request` to `principal` on `target_dn`: resolves the request, builds
/// the update and hands back the client of the session that commits it. A request or a
/// principal that is refused yields no client, so nothing is ever sent for it.
pub fn dacledit(
    ldap_uri: &str,
    credential_cache: &str,
    target_dn: &str,
    principal: &str,
    request: &PermissionRequest,
    inheritance_enabled: bool,
) -> (r: Result<DirectoryModifyClient, GrantError>)
    ensures
        match r {
            Ok(client) => planned(
                ldap_uri@,
                credential_cache@,
                target_dn@,
                principal@,
                request@,
                inheritance_enabled,
            ) == Ok::<ClientView, GrantErrorView>(client@),
            Err(error) => planned(
                ldap_uri@,
                credential_cache@,
                target_dn@,
                principal@,
                request@,
                inheritance_enabled,
            ) == Err::<ClientView, GrantErrorView>(error@),
        },
{
    let grant = match resolve(request) {
        Ok(grant) => grant,
        Err(error) => {
            return Err(error);
        },
    };
    match SecurityDescriptorUpdate::build(&grant, principal, inheritance_enabled) {
        Ok(update) => Ok(DirectoryModifyClient::new(ldap_uri, credential_cache, target_dn, update)),
        Err(error) => Err(error),
    }
}

/// How far a session has come, as a number that no step lowers.
pub open spec fn progress(client: ClientView) -> nat {
    match client.state {
        SessionState::Disconnected => 0,
        SessionState::Connected => 1,
        SessionState::Authenticated => 2,
        SessionState::Modified => 3,
        SessionState::Error => if client.session_open {
            4
        } else {
            5
        },
        SessionState::Closed => 5,
    }
}

/// Whether the session has ended: nothing is left to do but to take the outcome.
pub open spec fn finished(client: ClientView) -> bool {
    client.pending() is Finish
}

/// Every step keeps a client well formed and leaves its endpoint, its credential cache,
/// its target and its update as they were.
pub proof fn lemma_step_keeps_well_formed(client: ClientView, event: SessionEventView)
    requires
        client.well_formed(),
    ensures
        client.step(event).well_formed(),
        client.step(event).uri == client.uri,
        client.step(event).credential_cache == client.credential_cache,
        client.step(event).target_dn == client.target_dn,
        client.step(event).update == client.update,
{
}

/// A session never goes back: a step that changes the client moves it forward, and a
/// session that has ended stays as it is.
pub proof fn lemma_step_advances(client: ClientView, event: SessionEventView)
    requires
        client.well_formed(),
    ensures
        client.step(event) != client ==> progress(client.step(event)) > progress(client),
        finished(client) ==> client.step(event) == client,
{
}

/// The session is released on every path: it ends only with its connection released or
/// never opened, and while a connection is open the client asks for something, at the
/// latest for the release.
pub proof fn lemma_released_before_finish(client: ClientView)
    requires
        client.well_formed(),
    ensures
        finished(client) <==> (client.state == SessionState::Closed || client.state
            == SessionState::Error) && !client.session_open,
        finished(client) ==> !client.session_open,
        client.session_open && (client.state == SessionState::Error || client.state
            == SessionState::Modified) ==> client.pending() == SessionActionView::Close,
{
}

/// The two attributes travel in one request: the client asks for a modify in the
/// authenticated state only, and the request then replaces the security descriptor and
/// the control flags of the target together.
pub proof fn lemma_one_modify_request(client: ClientView)
    requires
        client.well_formed(),
    ensures
        client.pending() is Modify <==> client.state == SessionState::Authenticated,
        client.pending() matches SessionActionView::Modify(request) ==> {
            &&& request.target_dn == client.target_dn
            &&& request.replacements.len() == 2
            &&& request.replacements[0] == (
                SECURITY_DESCRIPTOR_ATTRIBUTE@,
                client.update.ace_string,
            )
            &&& request.replacements[1] == (SD_FLAGS_ATTRIBUTE@, client.update.sd_control_flags)
        },
{
}

/// A modify that the server rejects is reported with its result code, and the session
/// is released before it ends: after the rejection the client asks for the release, and
/// whatever comes of the release, the session then ends with the rejection.
pub proof fn lemma_rejected_modify(
    client: ClientView,
    result_code: u32,
    release: SessionEventView,
)
    requires
        client.well_formed(),
        client.state == SessionState::Authenticated,
        result_code != RESULT_SUCCESS,
        release is Completed || release is Failed,
    ensures
        client.step(SessionEventView::ModifyResult(result_code)).state == SessionState::Error,
        client.step(SessionEventView::ModifyResult(result_code)).pending()
            == SessionActionView::Close,
        client.step(SessionEventView::ModifyResult(result_code)).step(release).pending()
            == SessionActionView::Finish(
            Err(ClientErrorView::ModifyRejected { result_code, target_dn: client.target_dn }),
        ),
        !client.step(SessionEventView::ModifyResult(result_code)).step(release).session_open,
{
}

/// A session in which every action succeeds ends with success after four reports:
/// connected, bound, modified, released.
pub proof fn lemma_successful_session(client: ClientView)
    requires
        client.well_formed(),
        client.state == SessionState::Disconnected,
    ensures
        client.step(SessionEventView::Completed).step(SessionEventView::Completed).step(
            SessionEventView::ModifyResult(RESULT_SUCCESS),
        ).step(SessionEventView::Completed).pending() == SessionActionView::Finish(Ok(())),
{
}

/// A failure is final: once a session has failed, no report changes why.
pub proof fn lemma_failure_is_kept(client: ClientView, event: SessionEventView)
    requires
        client.well_formed(),
        client.failure is Some,
    ensures
        client.step(event).failure == client.failure,
        client.step(event).state == SessionState::Error,
{
}

/// A refused request plans no session: with none or with more than one field filled, or
/// with an unknown name, there is no client, whatever the other arguments are.
pub proof fn lemma_refused_request_plans_nothing(
    uri: Seq<char>,
    credential_cache: Seq<char>,
    target_dn: Seq<char>,
    principal: Seq<char>,
    request: PermissionRequestView,
    inheritance_enabled: bool,
)
    ensures
        filled(request) != 1 ==> planned(
            uri,
            credential_cache,
            target_dn,
            principal,
            request,
            inheritance_enabled,
        ) is Err,
        resolution(request) is Err ==> planned(
            uri,
            credential_cache,
            target_dn,
            principal,
            request,
            inheritance_enabled,
        ) == Err::<ClientView, GrantErrorView>(resolution(request)->Err_0),
{
}

} // verus!
