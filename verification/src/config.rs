//! Process-wide configuration, built once at start-up and passed by
//! reference into the components that need it.

use vstd::prelude::*;

verus! {

/// Header lists offered to cross-origin callers. The core never reads
/// them; they are carried for the process wiring around the library.
#[derive(Debug)]
pub struct CorsConfig {
    pub allowed_origins: Vec<String>,
    pub allowed_methods: Vec<String>,
    pub allowed_headers: Vec<String>,
}

/// The backend's configuration: token lifetimes (milliseconds), the
/// directory that holds video files, and the database name.
#[derive(Debug)]
pub struct MeTube {
    pub access_token_duration: i64,
    pub refresh_token_duration: i64,
    pub video_storage: String,
    pub database: String,
    pub cors: CorsConfig,
}

impl MeTube {
    /// Both lifetimes are non-negative.
    pub open spec fn wf(&self) -> bool {
        0 <= self.access_token_duration && 0 <= self.refresh_token_duration
    }

    pub fn new(
        access_token_duration: i64,
        refresh_token_duration: i64,
        video_storage: String,
        database: String,
        cors: CorsConfig,
    ) -> (c: MeTube)
        requires
            0 <= access_token_duration,
            0 <= refresh_token_duration,
        ensures
            c.wf(),
            c.access_token_duration == access_token_duration,
            c.refresh_token_duration == refresh_token_duration,
            c.video_storage@ == video_storage@,
            c.database@ == database@,
    {
        MeTube { access_token_duration, refresh_token_duration, video_storage, database, cors }
    }
}

} // verus!
