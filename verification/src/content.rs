//! The embeds that Viav sends: the help message and the controls message.
use vstd::prelude::*;
use vstd::string::*;

verus! {

broadcast use vstd::string::group_string_axioms;

/// The author line of an embed.
pub struct EmbedAuthor {
    pub name: String,
    pub icon_url: Option<String>,
    pub url: Option<String>,
}

/// Whether `a` is Viav's author line under the name `name`: Viav's icon and link.
pub open spec fn is_viav_author(a: EmbedAuthor, name: Seq<char>) -> bool {
    &&& a.name@ == name
    &&& a.icon_url matches Some(u) && u@ == viav_icon_url()
    &&& a.url matches Some(u) && u@ == viav_url()
}

/// A field of an embed.
pub struct EmbedField {
    pub name: String,
    pub value: String,
    pub inline: bool,
}

/// An embed: author line, description, fields and colour (red, green, blue).
pub struct Embed {
    pub author: Option<EmbedAuthor>,
    pub description: Option<String>,
    pub fields: Vec<EmbedField>,
    pub colour: (u8, u8, u8),
}

/// The colour of Viav's embeds.
pub open spec fn embed_colour() -> (u8, u8, u8) {
    (103u8, 58u8, 183u8)
}

/// Viav's icon.
pub open spec fn viav_icon_url() -> Seq<char> {
    "https://cdn.discordapp.com/attachments/451092625894932493/681741191313883186/Viav.png"@
}

/// Viav's website.
pub open spec fn viav_url() -> Seq<char> {
    "https://viav.app/"@
}

impl EmbedAuthor {
    /// An author line named `name` with Viav's icon and link.
    pub fn viav(name: String) -> (a: EmbedAuthor)
        ensures
            is_viav_author(a, name@),
    {
        EmbedAuthor {
            name,
            icon_url: Some(
                "https://cdn.discordapp.com/attachments/451092625894932493/681741191313883186/Viav.png".to_owned(),
            ),
            url: Some("https://viav.app/".to_owned()),
        }
    }
}

fn field(name: &str, value: &str, inline: bool) -> (f: EmbedField)
    ensures
        f.name@ == name@,
        f.value@ == value@,
        f.inline == inline,
{
    EmbedField { name: name.to_owned(), value: value.to_owned(), inline }
}

/// The description of the help message.
pub open spec fn help_description() -> Seq<char> {
    "**Infinite Voice Channels**\n\n\
        Viav will automatically create voice channels when they're needed, and delete them when they're not."@
}

/// The commands field of the help message.
pub open spec fn help_commands() -> Seq<char> {
    "-viav help
        -viav controls"@
}

/// The links field of the help message.
pub open spec fn help_links() -> Seq<char> {
    "[**` Invite `**](https://discordapp.com/oauth2/authorize?client_id=446151195338473485&permissions=8&scope=bot) \
        [**` Website `**](https://viav.app/) \
        [**` Donate `**](https://donatebot.io/checkout/450361438549311499) \
        [**` Top.gg `**](https://top.gg/bot/446151195338473485/vote) \
        [**` Support `**](https://discord.gg/6J27ETD) \
        "@
}

/// The controls field that the first message of a new text channel adds to the help.
pub open spec fn controls_text() -> Seq<char> {
    "<:lock:684471911920566281> - Lock voice channel\n
                        <:eye:684471928739725376> - Hide voice channel\n
                        <:alert:684470685430448128> - Mark text channel NSFW\n"@
}

/// The help message.
pub fn create_help_embed() -> (e: Embed)
    ensures
        e.author matches Some(a) && is_viav_author(a, "Viav"@),
        e.description matches Some(d) && d@ == help_description(),
        e.fields@.len() == 2,
        e.fields@[0].name@ == "Commands"@ && e.fields@[0].value@ == help_commands()
            && !e.fields@[0].inline,
        e.fields@[1].name@ == "Helpful Links"@ && e.fields@[1].value@ == help_links()
            && !e.fields@[1].inline,
        e.colour == embed_colour(),
{
    let mut fields: Vec<EmbedField> = Vec::new();
    fields.push(field("Commands", "-viav help
        -viav controls", false));
    fields.push(
        field(
            "Helpful Links",
            "[**` Invite `**](https://discordapp.com/oauth2/authorize?client_id=446151195338473485&permissions=8&scope=bot) \
        [**` Website `**](https://viav.app/) \
        [**` Donate `**](https://donatebot.io/checkout/450361438549311499) \
        [**` Top.gg `**](https://top.gg/bot/446151195338473485/vote) \
        [**` Support `**](https://discord.gg/6J27ETD) \
        ",
            false,
        ),
    );
    Embed {
        author: Some(EmbedAuthor::viav("Viav".to_owned())),
        description: Some(
            "**Infinite Voice Channels**\n\n\
        Viav will automatically create voice channels when they're needed, and delete them when they're not.".to_owned(),
        ),
        fields,
        colour: (103, 58, 183),
    }
}

/// The first message of a new text channel: the help, with the controls of the deck.
pub fn controls_embed() -> (e: Embed)
    ensures
        e.author matches Some(a) && is_viav_author(a, "Viav"@),
        e.description matches Some(d) && d@ == help_description(),
        e.fields@.len() == 3,
        e.fields@[0].name@ == "Commands"@ && e.fields@[0].value@ == help_commands()
            && !e.fields@[0].inline,
        e.fields@[1].name@ == "Helpful Links"@ && e.fields@[1].value@ == help_links()
            && !e.fields@[1].inline,
        e.fields@[2].name@ == "Controls"@ && e.fields@[2].value@ == controls_text()
            && !e.fields@[2].inline,
        e.colour == embed_colour(),
{
    let mut e = create_help_embed();
    e.fields.push(
        field(
            "Controls",
            "<:lock:684471911920566281> - Lock voice channel\n
                        <:eye:684471928739725376> - Hide voice channel\n
                        <:alert:684470685430448128> - Mark text channel NSFW\n",
            false,
        ),
    );
    e
}

} // verus!
