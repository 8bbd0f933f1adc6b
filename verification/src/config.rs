//! Settings, with the defaults used when no configuration file overrides them.

use vstd::prelude::*;
use vstd::string::StringExecFns;

verus! {

/// Settings of the music core.
#[derive(Clone, Debug)]
pub struct MusicConfig {
    /// The queue accepts a song while it holds no more than this many.
    pub queue_length: usize,
    /// Songs played from the queue count toward their requester's autoplay time.
    pub queue_adds_usertime: bool,
    pub autoplay_prefetch_max: u64,
    pub upcoming_count: u64,
    pub history_count: u64,
}

impl Default for MusicConfig {
    fn default() -> (r: Self)
        ensures
            r.queue_length == 10,
            r.queue_adds_usertime,
            r.autoplay_prefetch_max == 50,
            r.upcoming_count == 20,
            r.history_count == 20,
    {
        MusicConfig {
            queue_length: 10,
            queue_adds_usertime: true,
            autoplay_prefetch_max: 50,
            upcoming_count: 20,
            history_count: 20,
        }
    }
}

/// Settings of user accounts.
#[derive(Clone, Debug)]
pub struct UserConfig {
    /// Seconds a link code stays valid.
    pub link_timeout: u64,
}

impl Default for UserConfig {
    fn default() -> (r: Self)
        ensures
            r.link_timeout == 3600,
    {
        UserConfig { link_timeout: 60 * 60 }
    }
}

/// Settings of the Discord front end.
#[derive(Clone, Debug)]
pub struct DiscordConfig {
    pub autoplay_upcoming_max: u64,
    pub queuestate_ap_count: u64,
    pub webdash_prefetch: u64,
}

impl Default for DiscordConfig {
    fn default() -> (r: Self)
        ensures
            r.autoplay_upcoming_max == 10,
            r.queuestate_ap_count == 10,
            r.webdash_prefetch == 10,
    {
        DiscordConfig { autoplay_upcoming_max: 10, queuestate_ap_count: 10, webdash_prefetch: 10 }
    }
}

/// Settings of the log of played songs.
#[derive(Clone, Debug)]
pub struct SongLogConfig {
    pub enabled: bool,
    pub path: String,
    pub seperator: char,
}

impl Default for SongLogConfig {
    fn default() -> (r: Self)
        ensures
            !r.enabled,
            r.path@ == "songlog.tsv"@,
            r.seperator == '\t',
    {
        SongLogConfig { enabled: false, path: String::from_str("songlog.tsv"), seperator: '\t' }
    }
}

/// Settings of the web server.
#[derive(Clone, Debug)]
pub struct WebConfig {
    pub bind_address: String,
    pub port: u64,
}

impl Default for WebConfig {
    fn default() -> (r: Self)
        ensures
            r.bind_address@ == "127.0.0.1"@,
            r.port == 3030,
    {
        WebConfig { bind_address: String::from_str("127.0.0.1"), port: 3030 }
    }
}

/// All settings.
#[derive(Clone, Debug)]
pub struct Configuration {
    pub music: MusicConfig,
    pub discord: DiscordConfig,
    pub songlog: SongLogConfig,
    pub user: UserConfig,
    pub web: WebConfig,
}

impl Default for Configuration {
    fn default() -> (r: Self)
        ensures
            r.music.queue_length == 10,
            r.music.queue_adds_usertime,
            r.music.autoplay_prefetch_max == 50,
            r.music.upcoming_count == 20,
            r.music.history_count == 20,
            r.discord.autoplay_upcoming_max == 10,
            r.discord.queuestate_ap_count == 10,
            r.discord.webdash_prefetch == 10,
            !r.songlog.enabled,
            r.songlog.path@ == "songlog.tsv"@,
            r.songlog.seperator == '\t',
            r.user.link_timeout == 3600,
            r.web.bind_address@ == "127.0.0.1"@,
            r.web.port == 3030,
    {
        Configuration {
            music: MusicConfig::default(),
            discord: DiscordConfig::default(),
            songlog: SongLogConfig::default(),
            user: UserConfig::default(),
            web: WebConfig::default(),
        }
    }
}

} // verus!
