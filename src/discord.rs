//! The announcement message: a webhook payload with one embed.
use vstd::prelude::*;
use vstd::string::StringExecFns;
use crate::repo::Repo;
use crate::text::{decimal, decimal_text};

verus! {

#[derive(Clone, Debug)]
pub struct Footer {
    pub text: String,
}

#[derive(Clone, Debug)]
pub struct Author {
    pub name: String,
    pub url: String,
    pub icon_url: String,
}

#[derive(Clone, Debug)]
pub struct Embed {
    pub title: String,
    pub description: String,
    pub url: String,
    pub footer: Footer,
    pub author: Author,
}

/// The body of a message: plain text, or embeds.
#[derive(Clone, Debug)]
pub enum Content {
    Content(String),
    Embeds(Vec<Embed>),
}

#[derive(Clone, Debug)]
pub struct Webhook {
    pub content: Content,
    pub username: Option<String>,
    pub avatar_url: Option<String>,
    pub tts: Option<bool>,
}

/// The embed that announces `repo`.
pub open spec fn embed_of(e: Embed, repo: Repo) -> bool {
    &&& e.title == repo.name
    &&& e.description == repo.description
    &&& e.url == repo.url
    &&& e.footer.text@ == "★"@ + decimal(repo.stars as nat)
    &&& e.author.name == repo.author
    &&& e.author.url@ == "https://github.com/"@ + repo.author@
    &&& e.author.icon_url@ == "https://github.com/"@ + repo.author@ + ".png"@
}

/// The message that announces `repo`: one embed, default sender settings.
pub fn webhook_for(repo: &Repo) -> (r: Webhook)
    ensures
        r.content matches Content::Embeds(v) && v@.len() == 1 && embed_of(v@[0], *repo),
        r.username is None,
        r.avatar_url is None,
        r.tts is None,
{
    let profile = String::from_str("https://github.com/").concat(repo.author.as_str());
    let icon = profile.clone().concat(".png");
    let embed = Embed {
        title: repo.name.clone(),
        description: repo.description.clone(),
        url: repo.url.clone(),
        footer: Footer { text: String::from_str("★").concat(decimal_text(repo.stars).as_str()) },
        author: Author { name: repo.author.clone(), url: profile, icon_url: icon },
    };
    let mut v: Vec<Embed> = Vec::new();
    v.push(embed);
    Webhook { content: Content::Embeds(v), username: None, avatar_url: None, tts: None }
}

} // verus!
