//! The catalog behind the `www` command: for each topic a title and an
//! ordered list of headed sections. The texts are fixed.

use crate::message::{block_field, field_views, Embed, EmbedField, EmbedFieldView, EmbedView};
use crate::text::same_text;
use vstd::prelude::*;

verus! {
pub const APPLE_KEYWORD: &'static str = "apple";
pub const APPLE_TITLE: &'static str = "Why Phate6660 hates Apple:";
pub const APPLE_EVIL_HEADING: &'static str = "They are Evil";
pub const APPLE_EVIL_BODY: &'static str = "They are a despicable, evil, and disgusting company. I find them to be even worse than Google, and probably even Amazon. They've done some truly terrible things. Some examples: mass censorship, worker abuse (manipulation/brainwashing, sweatshops), repairing your own device is not allowed, they fully support DRM, they exploit developers.";
pub const APPLE_PRETEND_HEADING: &'static str = "They Pretend";
pub const APPLE_PRETEND_BODY: &'static str = "They like to pretend that they are the good guys of tech. While companies like Google are extremely terrible for your privacy, at least they aren't pretending like they aren't. Apple likes to give people the illusion that you can pay for your privacy, which to put frankly, is not true at all. They still spy on you just as much, or even more than, Google does.";
pub const APPLE_RESTRICTIVE_HEADING: &'static str = "They are Restrictive and Controlling";
pub const APPLE_RESTRICTIVE_BODY: &'static str = "They limit and control what you are allowed to do with your own device. Want to repair your Mac? Nope, can't do that. Want to install a different OS? Nope, they'll do as much as they can to stop you from doing that. The reason why I prefer Google more (not that I like them, this is more about choosing the lesser evil), is because you are allowed to do something about it. Don't want Android spying on you? Most of the time (depending on the phone brand) you can easily unlock your phone, install a custom recovery, and install a custom ROM like LineageOS without installing GApps. With iPhones, try as you may, you will never have that same amount of control that you can have on an Android device.";
pub const STEAM_KEYWORD: &'static str = "steam";
pub const STEAM_TITLE: &'static str = "Why Phate6660 hates Steam:";
pub const STEAM_DRM_HEADING: &'static str = "DRM";
pub const STEAM_DRM_BODY: &'static str = "You don't own the games you buy, you own the right to play the game off of Steam.";
pub const STEAM_DEVELOPERS_HEADING: &'static str = "Mistreatment of Developers";
pub const STEAM_DEVELOPERS_BODY: &'static str = "Steam mistreats game devs and publishers (this is why you see more and more games using GOG or even their own launchers/stores).";
pub const STEAM_FORCED_HEADING: &'static str = "It is Forced Onto You";
pub const STEAM_FORCED_BODY: &'static str = "Steam is *forced* onto you by various games. Imagine my surprise when I buy the Elder Scrolls anthology (as a physical collector's set complete with DISC COPIES of the game), and every game works... except for Skyrim. Skyrim requires you to use Steam. It's a shame that I saved up 50 whole dollars for shit. I can tell you Skyrim went straight into the trash, right after being broken into 600 little pieces.";
pub const STEAM_PRIVACY_HEADING: &'static str = "Privacy Violations";
pub const STEAM_PRIVACY_BODY: &'static str = "I shouldn't have to explain this one right?";
pub const STEAM_CENTRALIZATION_HEADING: &'static str = "Centralization";
pub const STEAM_CENTRALIZATION_BODY: &'static str = "Having all of your games centralized into one place is stupid, and this ties into the DRM point. If Steam were to shut down right now, I guarantee that you would lose access to at least 80% of your games.";
pub const SYSTEMD_KEYWORD: &'static str = "systemd";
pub const SYSTEMD_TITLE: &'static str = "Why Phate6660 hates SystemD:";
pub const SYSTEMD_FEATURE_CREEP_HEADING: &'static str = "Feature Creep";
pub const SYSTEMD_FEATURE_CREEP_BODY: &'static str = "The undeniable feature creep. While some people actually enjoy the features brought in from it (boot manager, network manager, login manager?, etc), I find them to be nothing but bloat. An init system should be just that. An init system. Not <insert an exaggerated amount of functions here>.";
pub const SYSTEMD_SLOW_HEADING: &'static str = "Slow";
pub const SYSTEMD_SLOW_BODY: &'static str = "It is slow. Slow to shutdown, slow to boot up, etc. Here are actual timed reboots from my machine using 3 init systems. SystemD (17s), OpenRC (11s), Runit (7s). 17s vs 7s, which would you choose?";
pub const SYSTEMD_BUGS_HEADING: &'static str = "Bugs and Insecurities";
pub const SYSTEMD_BUGS_BODY: &'static str = "Due to the feature creep, there is a larger attack service for bugs and security vulnerabilities. And there are security issues with SystemD.";
pub const SYSTEMD_DEVS_HEADING: &'static str = "Devs don't Care";
pub const SYSTEMD_DEVS_BODY: &'static str = "This is the one that bothers me the most. It's almost as if the dev(s) are completely oblivious or at least ignorant to the feature creep and security issues. Hell, Poettering even got awarded by Red Hat for making lame excuses for not fixing important bugs.";
pub const SYSTEMD_REQUIREMENT_HEADING: &'static str = "Hard Requirement";
pub const SYSTEMD_REQUIREMENT_BODY: &'static str = "It is a hard dependency for a large and *still growing* list of programs. Which forces users to use tools such as consolekit or elogind or eudev, or even patch the program themselves not to use systemd. This is a trivial thing when using distros like Gentoo, but I feel sincerely sorry for those using distros like Debian where it's near impossible to escape.";

/// A topic that the catalog has an entry for.
#[derive(Clone, Copy, Debug, PartialEq, Eq, Structural)]
pub enum Topic {
    Apple,
    Steam,
    Systemd,
}

impl Topic {
    /// The keyword under which the topic is asked for.
    pub open spec fn keyword(self) -> Seq<char> {
        match self {
            Topic::Apple => APPLE_KEYWORD@,
            Topic::Steam => STEAM_KEYWORD@,
            Topic::Systemd => SYSTEMD_KEYWORD@,
        }
    }

    /// The title of the topic's entry.
    pub open spec fn title(self) -> Seq<char> {
        match self {
            Topic::Apple => APPLE_TITLE@,
            Topic::Steam => STEAM_TITLE@,
            Topic::Systemd => SYSTEMD_TITLE@,
        }
    }

    /// The sections of the topic's entry, in the order in which they are
    /// shown. Each takes a row of its own.
    pub open spec fn sections(self) -> Seq<EmbedFieldView> {
        match self {
            Topic::Apple => seq![
                block_field(APPLE_EVIL_HEADING@, APPLE_EVIL_BODY@),
                block_field(APPLE_PRETEND_HEADING@, APPLE_PRETEND_BODY@),
                block_field(APPLE_RESTRICTIVE_HEADING@, APPLE_RESTRICTIVE_BODY@),
            ],
            Topic::Steam => seq![
                block_field(STEAM_DRM_HEADING@, STEAM_DRM_BODY@),
                block_field(STEAM_DEVELOPERS_HEADING@, STEAM_DEVELOPERS_BODY@),
                block_field(STEAM_FORCED_HEADING@, STEAM_FORCED_BODY@),
                block_field(STEAM_PRIVACY_HEADING@, STEAM_PRIVACY_BODY@),
                block_field(STEAM_CENTRALIZATION_HEADING@, STEAM_CENTRALIZATION_BODY@),
            ],
            Topic::Systemd => seq![
                block_field(SYSTEMD_FEATURE_CREEP_HEADING@, SYSTEMD_FEATURE_CREEP_BODY@),
                block_field(SYSTEMD_SLOW_HEADING@, SYSTEMD_SLOW_BODY@),
                block_field(SYSTEMD_BUGS_HEADING@, SYSTEMD_BUGS_BODY@),
                block_field(SYSTEMD_DEVS_HEADING@, SYSTEMD_DEVS_BODY@),
                block_field(SYSTEMD_REQUIREMENT_HEADING@, SYSTEMD_REQUIREMENT_BODY@),
            ],
        }
    }

    /// The topic's entry: an embed of the title and the sections, with no
    /// link, colour or image.
    pub open spec fn entry(self) -> EmbedView {
        EmbedView {
            title: self.title(),
            url: None,
            color: None,
            fields: self.sections(),
            image: None,
        }
    }
}

/// The topic that `keyword` names, if it names one. The match is exact.
pub open spec fn topic_of(keyword: Seq<char>) -> Option<Topic> {
    if keyword == APPLE_KEYWORD@ {
        Some(Topic::Apple)
    } else if keyword == STEAM_KEYWORD@ {
        Some(Topic::Steam)
    } else if keyword == SYSTEMD_KEYWORD@ {
        Some(Topic::Systemd)
    } else {
        None
    }
}

/// Finds the topic that `keyword` names.
pub fn find_topic(keyword: &str) -> (topic: Option<Topic>)
    ensures
        topic == topic_of(keyword@),
{
    if same_text(keyword, APPLE_KEYWORD) {
        Some(Topic::Apple)
    } else if same_text(keyword, STEAM_KEYWORD) {
        Some(Topic::Steam)
    } else if same_text(keyword, SYSTEMD_KEYWORD) {
        Some(Topic::Systemd)
    } else {
        None
    }
}

/// Builds the sections of a topic's entry.
fn sections_of(topic: Topic) -> (fields: Vec<EmbedField>)
    ensures
        field_views(fields@) == topic.sections(),
{
    let mut fields: Vec<EmbedField> = Vec::new();
    match topic {
        Topic::Apple => {
            fields.push(EmbedField::block(APPLE_EVIL_HEADING, APPLE_EVIL_BODY));
            fields.push(EmbedField::block(APPLE_PRETEND_HEADING, APPLE_PRETEND_BODY));
            fields.push(EmbedField::block(APPLE_RESTRICTIVE_HEADING, APPLE_RESTRICTIVE_BODY));
        },
        Topic::Steam => {
            fields.push(EmbedField::block(STEAM_DRM_HEADING, STEAM_DRM_BODY));
            fields.push(EmbedField::block(STEAM_DEVELOPERS_HEADING, STEAM_DEVELOPERS_BODY));
            fields.push(EmbedField::block(STEAM_FORCED_HEADING, STEAM_FORCED_BODY));
            fields.push(EmbedField::block(STEAM_PRIVACY_HEADING, STEAM_PRIVACY_BODY));
            fields.push(EmbedField::block(STEAM_CENTRALIZATION_HEADING, STEAM_CENTRALIZATION_BODY));
        },
        Topic::Systemd => {
            fields.push(EmbedField::block(SYSTEMD_FEATURE_CREEP_HEADING, SYSTEMD_FEATURE_CREEP_BODY));
            fields.push(EmbedField::block(SYSTEMD_SLOW_HEADING, SYSTEMD_SLOW_BODY));
            fields.push(EmbedField::block(SYSTEMD_BUGS_HEADING, SYSTEMD_BUGS_BODY));
            fields.push(EmbedField::block(SYSTEMD_DEVS_HEADING, SYSTEMD_DEVS_BODY));
            fields.push(EmbedField::block(SYSTEMD_REQUIREMENT_HEADING, SYSTEMD_REQUIREMENT_BODY));
        },
    }
    assert(field_views(fields@) =~= topic.sections());
    fields
}

/// Builds the entry of a topic.
pub fn entry_of(topic: Topic) -> (embed: Embed)
    ensures
        embed@ == topic.entry(),
        embed.wf(),
{
    let title = match topic {
        Topic::Apple => APPLE_TITLE,
        Topic::Steam => STEAM_TITLE,
        Topic::Systemd => SYSTEMD_TITLE,
    };
    Embed {
        title: String::from_str(title),
        url: None,
        color: None,
        fields: sections_of(topic),
        image: None,
    }
}

/// Every topic is found under its own keyword, and under no other text.
pub proof fn law_keywords_name_topics(topic: Topic, keyword: Seq<char>)
    ensures
        topic_of(topic.keyword()) == Some(topic),
        topic_of(keyword) == Some(topic) <==> keyword == topic.keyword(),
{
    reveal_strlit("apple");
    reveal_strlit("steam");
    reveal_strlit("systemd");
    assert(APPLE_KEYWORD@[0] != STEAM_KEYWORD@[0]);
    assert(APPLE_KEYWORD@.len() != SYSTEMD_KEYWORD@.len());
    assert(STEAM_KEYWORD@.len() != SYSTEMD_KEYWORD@.len());
}

} // verus!
