use rsphate::catalog::{entry_of, find_topic, Topic};
use rsphate::commands::www;
use rsphate::message::{Embed, OutgoingMessage};

fn embed_of(message: OutgoingMessage) -> Embed {
    match message {
        OutgoingMessage::Embed(embed) => embed,
        other => panic!("expected an embed, got {:?}", other),
    }
}

fn check_sections(embed: &Embed, expected: &[(&str, &str)]) {
    assert_eq!(embed.fields.len(), expected.len());
    for (field, (label, body)) in embed.fields.iter().zip(expected) {
        assert_eq!(field.label, *label);
        assert_eq!(field.body, *body);
        assert!(!field.inline);
    }
}

#[test]
fn apple_entry() {
    let embed = embed_of(www("apple"));
    assert_eq!(embed.title, "Why Phate6660 hates Apple:");
    assert_eq!(embed.url, None);
    assert_eq!(embed.color, None);
    assert_eq!(embed.image, None);
    check_sections(
        &embed,
        &[
            (
                "They are Evil",
                "They are a despicable, evil, and disgusting company. I find them to be even worse than Google, and probably even Amazon. They've done some truly terrible things. Some examples: mass censorship, worker abuse (manipulation/brainwashing, sweatshops), repairing your own device is not allowed, they fully support DRM, they exploit developers.",
            ),
            (
                "They Pretend",
                "They like to pretend that they are the good guys of tech. While companies like Google are extremely terrible for your privacy, at least they aren't pretending like they aren't. Apple likes to give people the illusion that you can pay for your privacy, which to put frankly, is not true at all. They still spy on you just as much, or even more than, Google does.",
            ),
            (
                "They are Restrictive and Controlling",
                "They limit and control what you are allowed to do with your own device. Want to repair your Mac? Nope, can't do that. Want to install a different OS? Nope, they'll do as much as they can to stop you from doing that. The reason why I prefer Google more (not that I like them, this is more about choosing the lesser evil), is because you are allowed to do something about it. Don't want Android spying on you? Most of the time (depending on the phone brand) you can easily unlock your phone, install a custom recovery, and install a custom ROM like LineageOS without installing GApps. With iPhones, try as you may, you will never have that same amount of control that you can have on an Android device.",
            ),
        ],
    );
}

#[test]
fn steam_entry() {
    let embed = embed_of(www("steam"));
    assert_eq!(embed.title, "Why Phate6660 hates Steam:");
    assert_eq!(embed.url, None);
    assert_eq!(embed.color, None);
    assert_eq!(embed.image, None);
    check_sections(
        &embed,
        &[
            (
                "DRM",
                "You don't own the games you buy, you own the right to play the game off of Steam.",
            ),
            (
                "Mistreatment of Developers",
                "Steam mistreats game devs and publishers (this is why you see more and more games using GOG or even their own launchers/stores).",
            ),
            (
                "It is Forced Onto You",
                "Steam is *forced* onto you by various games. Imagine my surprise when I buy the Elder Scrolls anthology (as a physical collector's set complete with DISC COPIES of the game), and every game works... except for Skyrim. Skyrim requires you to use Steam. It's a shame that I saved up 50 whole dollars for shit. I can tell you Skyrim went straight into the trash, right after being broken into 600 little pieces.",
            ),
            (
                "Privacy Violations",
                "I shouldn't have to explain this one right?",
            ),
            (
                "Centralization",
                "Having all of your games centralized into one place is stupid, and this ties into the DRM point. If Steam were to shut down right now, I guarantee that you would lose access to at least 80% of your games.",
            ),
        ],
    );
}

#[test]
fn systemd_entry() {
    let embed = embed_of(www("systemd"));
    assert_eq!(embed.title, "Why Phate6660 hates SystemD:");
    assert_eq!(embed.url, None);
    assert_eq!(embed.color, None);
    assert_eq!(embed.image, None);
    check_sections(
        &embed,
        &[
            (
                "Feature Creep",
                "The undeniable feature creep. While some people actually enjoy the features brought in from it (boot manager, network manager, login manager?, etc), I find them to be nothing but bloat. An init system should be just that. An init system. Not <insert an exaggerated amount of functions here>.",
            ),
            (
                "Slow",
                "It is slow. Slow to shutdown, slow to boot up, etc. Here are actual timed reboots from my machine using 3 init systems. SystemD (17s), OpenRC (11s), Runit (7s). 17s vs 7s, which would you choose?",
            ),
            (
                "Bugs and Insecurities",
                "Due to the feature creep, there is a larger attack service for bugs and security vulnerabilities. And there are security issues with SystemD.",
            ),
            (
                "Devs don't Care",
                "This is the one that bothers me the most. It's almost as if the dev(s) are completely oblivious or at least ignorant to the feature creep and security issues. Hell, Poettering even got awarded by Red Hat for making lame excuses for not fixing important bugs.",
            ),
            (
                "Hard Requirement",
                "It is a hard dependency for a large and *still growing* list of programs. Which forces users to use tools such as consolekit or elogind or eudev, or even patch the program themselves not to use systemd. This is a trivial thing when using distros like Gentoo, but I feel sincerely sorry for those using distros like Debian where it's near impossible to escape.",
            ),
        ],
    );
}

#[test]
fn apple_has_three_sections_and_the_first_is_about_evil() {
    let embed = embed_of(www("apple"));
    assert_eq!(embed.title, "Why Phate6660 hates Apple:");
    assert_eq!(embed.fields.len(), 3);
    assert_eq!(embed.fields[0].label, "They are Evil");
}

#[test]
fn section_headings_come_in_catalog_order() {
    let labels = |topic: &str| -> Vec<String> {
        embed_of(www(topic)).fields.into_iter().map(|field| field.label).collect()
    };
    assert_eq!(
        labels("apple"),
        vec!["They are Evil", "They Pretend", "They are Restrictive and Controlling"]
    );
    assert_eq!(
        labels("steam"),
        vec![
            "DRM",
            "Mistreatment of Developers",
            "It is Forced Onto You",
            "Privacy Violations",
            "Centralization"
        ]
    );
    assert_eq!(
        labels("systemd"),
        vec![
            "Feature Creep",
            "Slow",
            "Bugs and Insecurities",
            "Devs don't Care",
            "Hard Requirement"
        ]
    );
}

#[test]
fn www_answers_with_the_catalog_entry() {
    for (keyword, topic) in
        [("apple", Topic::Apple), ("steam", Topic::Steam), ("systemd", Topic::Systemd)]
    {
        assert_eq!(find_topic(keyword), Some(topic));
        assert_eq!(www(keyword), OutgoingMessage::Embed(entry_of(topic)));
    }
}

#[test]
fn unknown_query_is_repeated_in_a_reply() {
    assert_eq!(www("linux"), OutgoingMessage::Reply("unknown query: linux".to_string()));
    assert_eq!(www(""), OutgoingMessage::Reply("unknown query: ".to_string()));
    assert_eq!(
        www("apple and steam"),
        OutgoingMessage::Reply("unknown query: apple and steam".to_string())
    );
}

#[test]
fn topic_keywords_are_matched_exactly() {
    assert_eq!(find_topic("Apple"), None);
    assert_eq!(find_topic("apple "), None);
    assert_eq!(find_topic(" apple"), None);
    assert_eq!(find_topic("systemD"), None);
    assert_eq!(www("Apple"), OutgoingMessage::Reply("unknown query: Apple".to_string()));
    assert_eq!(www("steam "), OutgoingMessage::Reply("unknown query: steam ".to_string()));
}
