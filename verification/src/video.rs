//! The video catalog: entries, physical files, per-video access
//! decisions, and the short-lived tokens that authorize one media
//! fetch.

use vstd::prelude::*;

use crate::authentication::{AuthenticationError, StoreError};
use crate::config::MeTube;
use crate::text::str_eq;
use crate::token::{now_millis, ExpiringToken};
use crate::user::{spec_allows, User, WATCH_VIDEO};

verus! {

/// How long a video token lives: five minutes, in milliseconds.
pub const VIDEO_TOKEN_DURATION_MILLIS: i64 = 300000;

/// A value that is one of two things; a video's file reference is
/// either a bare id or the resolved record.
#[derive(Debug)]
pub enum Either<L, R> {
    Left(L),
    Right(R),
}

impl<L, R> Either<L, R> {
    /// The left value; the caller must know which side is held.
    pub fn unwrap_left(self) -> (r: L)
        requires
            self is Left,
        ensures
            self == Either::<L, R>::Left(r),
    {
        match self {
            Either::Left(l) => l,
            Either::Right(..) => unreached(),
        }
    }

    /// The right value; the caller must know which side is held.
    pub fn unwrap_right(self) -> (r: R)
        requires
            self is Right,
        ensures
            self == Either::<L, R>::Right(r),
    {
        match self {
            Either::Right(r) => r,
            Either::Left(..) => unreached(),
        }
    }

    /// The same choice, holding references into `self`.
    pub fn as_ref(&self) -> (r: Either<&L, &R>)
        ensures
            match r {
                Either::Left(l) => self matches Either::Left(l2) && l == l2,
                Either::Right(g) => self matches Either::Right(g2) && g == g2,
            },
    {
        match self {
            Either::Left(l) => Either::Left(l),
            Either::Right(r) => Either::Right(r),
        }
    }
}

/// The audio codec of a stored file, as the prober named it.
#[derive(Debug)]
pub enum AudioCodec {
    Mp3,
    Aac,
    Unk(String),
}

impl AudioCodec {
    /// The variant a probed codec name maps to; an unrecognized name is
    /// kept verbatim.
    pub open spec fn spec_names(s: Seq<char>, r: AudioCodec) -> bool {
        if s == "mp3"@ {
            r is Mp3
        } else if s == "aac"@ {
            r is Aac
        } else {
            r matches AudioCodec::Unk(u) && u@ == s
        }
    }

    pub fn from_name(s: &str) -> (r: AudioCodec)
        ensures
            Self::spec_names(s@, r),
    {
        if str_eq(s, "mp3") {
            AudioCodec::Mp3
        } else if str_eq(s, "aac") {
            AudioCodec::Aac
        } else {
            AudioCodec::Unk(s.to_owned())
        }
    }
}

/// The video codec of a stored file, as the prober named it.
#[derive(Debug)]
pub enum VideoCodec {
    H264,
    Hevc,
    Unk(String),
}

impl VideoCodec {
    /// The variant a probed codec name maps to; an unrecognized name is
    /// kept verbatim.
    pub open spec fn spec_names(s: Seq<char>, r: VideoCodec) -> bool {
        if s == "h264"@ {
            r is H264
        } else if s == "hevc"@ {
            r is Hevc
        } else {
            r matches VideoCodec::Unk(u) && u@ == s
        }
    }

    pub fn from_name(s: &str) -> (r: VideoCodec)
        ensures
            Self::spec_names(s@, r),
    {
        if str_eq(s, "h264") {
            VideoCodec::H264
        } else if str_eq(s, "hevc") {
            VideoCodec::Hevc
        } else {
            VideoCodec::Unk(s.to_owned())
        }
    }
}

/// The container format of a stored file. Its label is the file
/// extension used for delivery.
#[derive(Debug)]
pub enum Format {
    Mkv,
    Mp4,
    Unk(String),
}

impl Format {
    /// The extension label of the format.
    pub open spec fn spec_label(&self) -> Seq<char> {
        match self {
            Format::Mkv => "mkv"@,
            Format::Mp4 => "mp4"@,
            Format::Unk(s) => s@,
        }
    }

    pub fn label(&self) -> (r: &str)
        ensures
            r@ == self.spec_label(),
    {
        match self {
            Format::Mkv => "mkv",
            Format::Mp4 => "mp4",
            Format::Unk(s) => s.as_str(),
        }
    }

    /// The variant a probed format name maps to; the prober reports
    /// container families as comma-joined lists. An unrecognized name
    /// is kept verbatim.
    pub open spec fn spec_names(s: Seq<char>, r: Format) -> bool {
        if s == "matroska,webm"@ {
            r is Mkv
        } else if s == "mov,mp4,m4a,3gp,3g2,mj2"@ {
            r is Mp4
        } else {
            r matches Format::Unk(u) && u@ == s
        }
    }

    pub fn from_name(s: &str) -> (r: Format)
        ensures
            Self::spec_names(s@, r),
    {
        if str_eq(s, "matroska,webm") {
            Format::Mkv
        } else if str_eq(s, "mov,mp4,m4a,3gp,3g2,mj2") {
            Format::Mp4
        } else {
            Format::Unk(s.to_owned())
        }
    }
}

/// The physical asset behind one or more catalog entries.
#[derive(Debug)]
pub struct VideoFile {
    pub id: String,
    /// Byte size as probed at upload, if known.
    pub size: Option<u64>,
    pub audio_codec: AudioCodec,
    pub video_codec: VideoCodec,
    pub format: Format,
    /// Id of a converted alternate, preferred for delivery when
    /// present.
    pub converted: Option<String>,
}

impl VideoFile {
    /// Where the asset's bytes live: its id under the configured
    /// storage directory.
    pub fn path(&self, config: &MeTube) -> (r: String)
        ensures
            r@ == config.video_storage@ + "/"@ + self.id@,
    {
        let mut s = config.video_storage.clone();
        s.append("/");
        s.append(self.id.as_str());
        s
    }
}

/// A catalog entry: display data, the owning game (the access-control
/// boundary), visibility, and the reference to its physical file.
#[derive(Debug)]
pub struct Video {
    pub id: String,
    pub file: Either<String, VideoFile>,
    pub name: Option<String>,
    pub game: String,
    pub public: bool,
    pub owner: String,
    /// Creation time, milliseconds since the epoch.
    pub added: i64,
}

impl Video {
    /// The filename offered for delivery: the display name (or the id
    /// when none is set) with the file's extension appended. Defined
    /// when the file reference is resolved.
    pub open spec fn spec_download_name(&self) -> Seq<char> {
        let ext = match self.file {
            Either::Right(f) => f.format.spec_label(),
            Either::Left(..) => Seq::empty(),
        };
        match self.name {
            Some(n) => n@ + "."@ + ext,
            None => self.id@ + "."@ + ext,
        }
    }

    pub fn download_name(&self) -> (r: String)
        requires
            self.file is Right,
        ensures
            r@ == self.spec_download_name(),
    {
        let f = match self.file.as_ref() {
            Either::Right(f) => f,
            Either::Left(..) => unreached(),
        };
        let mut s = match &self.name {
            Some(n) => n.clone(),
            None => self.id.clone(),
        };
        s.append(".");
        s.append(f.format.label());
        s
    }

    /// Who may fetch this video: everyone if it is public; otherwise an
    /// identified caller who holds WATCH_VIDEO globally or is a member
    /// of the owning game. `in_game` is the store's answer to that
    /// membership question.
    pub open spec fn spec_user_authorized(&self, user: Option<&User>, in_game: bool) -> bool {
        self.public || match user {
            Some(u) => spec_allows(u.permissions.inner, WATCH_VIDEO) || in_game,
            None => false,
        }
    }

    pub fn user_authorized(&self, user: Option<&User>, in_game: bool) -> (r: bool)
        ensures
            r == self.spec_user_authorized(user, in_game),
    {
        self.public || match user {
            Some(u) => u.allowed(WATCH_VIDEO) || in_game,
            None => false,
        }
    }

    /// A fresh five-minute token bound to this video, expiring at
    /// `now + VIDEO_TOKEN_DURATION_MILLIS`.
    pub fn generate_token_at(&self, now: i64) -> (r: VideoToken)
        requires
            now <= i64::MAX - VIDEO_TOKEN_DURATION_MILLIS,
        ensures
            r.video@ == self.id@,
            r.token.expires == now + VIDEO_TOKEN_DURATION_MILLIS,
            r.token.token@.len() == 44,
    {
        VideoToken::new_at(self.id.as_str(), now)
    }

    /// Clock-reading form; the binding to this video still holds.
    pub fn generate_token(&self) -> (r: VideoToken)
        ensures
            r.video@ == self.id@,
            r.token.token@.len() == 44,
    {
        VideoToken::new(self.id.as_str())
    }

    /// The id of the converted alternate that delivery must prefer, if
    /// one exists.
    pub fn conversion_target(&self) -> (r: Option<&String>)
        requires
            self.file is Right,
        ensures
            match r {
                Some(c) => (self.file matches Either::Right(f) && f.converted matches Some(c2)
                    && c@ == c2@),
                None => (self.file matches Either::Right(f) && f.converted is None),
            },
    {
        match &self.file {
            Either::Right(f) => match &f.converted {
                Some(c) => Some(c),
                None => None,
            },
            Either::Left(..) => unreached(),
        }
    }

    /// Swaps the file reference for the fetched converted alternate.
    /// The record handed in must be the one `conversion_target` named.
    pub fn resolve_converted_with(&mut self, fetched: VideoFile)
        requires
            old(self).file matches Either::Right(f) && f.converted matches Some(c) && c@
                == fetched.id@,
        ensures
            final(self).file == Either::<String, VideoFile>::Right(fetched),
            final(self).id@ == old(self).id@,
            final(self).name == old(self).name,
            final(self).game@ == old(self).game@,
            final(self).public == old(self).public,
            final(self).owner@ == old(self).owner@,
            final(self).added == old(self).added,
    {
        self.file = Either::Right(fetched);
    }
}

/// A short-lived credential binding one media fetch to one video.
#[derive(Debug)]
pub struct VideoToken {
    pub token: ExpiringToken,
    pub video: String,
}

impl VideoToken {
    /// A token for `video` expiring five minutes after `now`.
    pub fn new_at(video: &str, now: i64) -> (r: VideoToken)
        requires
            now <= i64::MAX - VIDEO_TOKEN_DURATION_MILLIS,
        ensures
            r.video@ == video@,
            r.token.expires == now + VIDEO_TOKEN_DURATION_MILLIS,
            r.token.token@.len() == 44,
    {
        VideoToken {
            token: ExpiringToken::issue_at(now, VIDEO_TOKEN_DURATION_MILLIS),
            video: video.to_owned(),
        }
    }

    /// Clock-reading form; the binding to `video` still holds.
    pub fn new(video: &str) -> (r: VideoToken)
        ensures
            r.video@ == video@,
            r.token.token@.len() == 44,
    {
        let now = now_millis();
        if now <= i64::MAX - VIDEO_TOKEN_DURATION_MILLIS {
            VideoToken::new_at(video, now)
        } else {
            VideoToken {
                token: ExpiringToken { token: crate::token::secure_rnd_string(), expires: i64::MAX },
                video: video.to_owned(),
            }
        }
    }
}

/// Why a play-token request was refused.
#[derive(Debug)]
pub enum GrantError {
    /// The video does not exist.
    VideoNotFound,
    /// The caller exists but may not fetch this video, or failed
    /// authentication in the first place.
    Auth(AuthenticationError),
}

/// The refusal `grant_video_token` makes when the video exists but the
/// caller is not authorized: an authenticated caller lacks
/// WATCH_VIDEO, an unauthenticated one keeps their own failure.
pub open spec fn spec_grant_refusal(user: Result<User, AuthenticationError>) -> GrantError {
    match user {
        Ok(..) => GrantError::Auth(AuthenticationError::InsufficientPermissions(WATCH_VIDEO)),
        Err(e) => GrantError::Auth(e),
    }
}

/// Decides a `GET /video/{id}/token` request from the store's answers:
/// mints a token iff the video exists and the caller may fetch it. A
/// store failure stays distinguishable from a missing video.
pub fn grant_video_token(
    lookup: Result<Option<Video>, StoreError>,
    user: Result<User, AuthenticationError>,
    in_game: bool,
    now: i64,
) -> (r: Result<VideoToken, GrantError>)
    requires
        now <= i64::MAX - VIDEO_TOKEN_DURATION_MILLIS,
    ensures
        match lookup {
            Err(e) => r == Err::<VideoToken, GrantError>(
                GrantError::Auth(AuthenticationError::DatabaseError(e)),
            ),
            Ok(None) => r == Err::<VideoToken, GrantError>(GrantError::VideoNotFound),
            Ok(Some(v)) => {
                if v.spec_user_authorized(
                    match user {
                        Ok(ref u) => Some(u),
                        Err(..) => None,
                    },
                    in_game,
                ) {
                    r matches Ok(t) && t.video@ == v.id@ && t.token.expires == now
                        + VIDEO_TOKEN_DURATION_MILLIS && t.token.token@.len() == 44
                } else {
                    r == Err::<VideoToken, GrantError>(spec_grant_refusal(user))
                }
            },
        },
{
    let v = match lookup {
        Ok(Some(v)) => v,
        Ok(None) => {
            return Err(GrantError::VideoNotFound);
        },
        Err(e) => {
            return Err(GrantError::Auth(AuthenticationError::DatabaseError(e)));
        },
    };
    let authorized = match &user {
        Ok(u) => v.user_authorized(Some(u), in_game),
        Err(..) => v.user_authorized(None, in_game),
    };
    if authorized {
        Ok(v.generate_token_at(now))
    } else {
        match user {
            Ok(..) => Err(
                GrantError::Auth(AuthenticationError::InsufficientPermissions(WATCH_VIDEO)),
            ),
            Err(e) => Err(GrantError::Auth(e)),
        }
    }
}

/// What the public share endpoint does with a looked-up video.
#[derive(Debug)]
pub enum ShareDecision {
    /// The store failed.
    InternalError,
    /// Unknown video, or one that is not public.
    NotFound,
    /// A public video, to be streamed.
    Serve(Video),
}

/// The share gate: only videos flagged public are served; a missing or
/// non-public video is indistinguishable from an absent one. No caller
/// identity enters the decision.
pub open spec fn spec_share_gate(lookup: Result<Option<Video>, StoreError>) -> ShareDecision {
    match lookup {
        Err(..) => ShareDecision::InternalError,
        Ok(None) => ShareDecision::NotFound,
        Ok(Some(v)) => if !v.public {
            ShareDecision::NotFound
        } else {
            ShareDecision::Serve(v)
        },
    }
}

pub fn share_gate(lookup: Result<Option<Video>, StoreError>) -> (r: ShareDecision)
    ensures
        r == spec_share_gate(lookup),
{
    match lookup {
        Err(..) => ShareDecision::InternalError,
        Ok(None) => ShareDecision::NotFound,
        Ok(Some(v)) => if !v.public {
            ShareDecision::NotFound
        } else {
            ShareDecision::Serve(v)
        },
    }
}

/// A non-public video is reported as not found on the share path, no
/// matter who asks: the decision never sees a caller.
pub proof fn lemma_share_hides_private(lookup: Result<Option<Video>, StoreError>, v: Video)
    requires
        lookup == Ok::<Option<Video>, StoreError>(Some(v)),
        !v.public,
    ensures
        spec_share_gate(lookup) is NotFound,
{
}

} // verus!
