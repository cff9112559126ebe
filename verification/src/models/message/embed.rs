//! Message embeds.
use vstd::prelude::*;

verus! {

/// Represents a Message Embed being sent.
#[derive(Clone, Debug, PartialEq)]
pub struct Embed {
    /// The title of the embed.
    pub title: Option<String>,
    /// The type of embed.
    pub kind: Option<String>,
    /// The description of the embed.
    pub description: Option<String>,
    /// The URL of the embed.
    pub url: Option<String>,
    /// The timestamp of the embed.
    pub timestamp: Option<String>,
    /// The color of the embed.
    pub color: Option<i32>,
    /// Information about the embed's footer.
    pub footer: Option<EmbedFooter>,
    /// Information about the embed's image.
    pub image: Option<EmbedImage>,
    /// Information about the embed's thumbnail.
    pub thumbnail: Option<EmbedThumbnail>,
    /// Information about an embed's video, if applicable.
    pub video: Option<EmbedVideo>,
    /// Information about an embed's provider if applicable.
    pub provider: Option<EmbedProvider>,
    /// Information about the embed's author.
    pub author: Option<EmbedAuthor>,
    /// Information about the embed's fields.
    pub fields: Vec<EmbedField>,
}

impl Embed {
    /// Whether nothing is set in this embed.
    pub open spec fn is_blank(self) -> bool {
        &&& self.title is None
        &&& self.kind is None
        &&& self.description is None
        &&& self.url is None
        &&& self.timestamp is None
        &&& self.color is None
        &&& self.footer is None
        &&& self.image is None
        &&& self.thumbnail is None
        &&& self.video is None
        &&& self.provider is None
        &&& self.author is None
        &&& self.fields@.len() == 0
    }

    /// An embed with nothing set.
    pub fn new() -> (e: Self)
        ensures
            e.is_blank(),
    {
        Embed::default()
    }

    /// Sets the title for this embed.
    pub fn set_title(self, text: &str) -> (r: Self)
        ensures
            r.title is Some && r.title->0@ == text@,
            r == (Self { title: r.title, ..self }),
    {
        let mut this = self;
        this.title = Some(text.to_owned());
        this
    }

    /// Sets the description of this embed.
    pub fn set_description(self, text: &str) -> (r: Self)
        ensures
            r.description is Some && r.description->0@ == text@,
            r == (Self { description: r.description, ..self }),
    {
        let mut this = self;
        this.description = Some(text.to_owned());
        this
    }

    /// Sets the color of this embed.
    pub fn set_color(self, code: i32) -> (r: Self)
        ensures
            r == (Self { color: Some(code), ..self }),
    {
        let mut this = self;
        this.color = Some(code);
        this
    }

    /// Adds a field to this embed, built by `builder` from a blank field.
    pub fn add_field<F: FnOnce(EmbedField) -> EmbedField>(self, builder: F) -> (r: Self)
        requires
            forall|blank: EmbedField| blank.is_blank() ==> call_requires(builder, (blank,)),
        ensures
            exists|blank: EmbedField, built: EmbedField|
                #![trigger call_ensures(builder, (blank,), built)]
                blank.is_blank() && call_ensures(builder, (blank,), built) && r.fields@ == self.fields@.push(built),
            r == (Self { fields: r.fields, ..self }),
    {
        let mut this = self;
        let new_field = builder(EmbedField::default());
        this.fields.push(new_field);
        this
    }

    /// Sets the author of this embed, built by `author` from a blank author.
    pub fn set_author<F: FnOnce(EmbedAuthor) -> EmbedAuthor>(self, author: F) -> (r: Self)
        requires
            forall|blank: EmbedAuthor| blank.is_blank() ==> call_requires(author, (blank,)),
        ensures
            exists|blank: EmbedAuthor, built: EmbedAuthor|
                #![trigger call_ensures(author, (blank,), built)]
                blank.is_blank() && call_ensures(author, (blank,), built) && r.author == Some(built),
            r == (Self { author: r.author, ..self }),
    {
        let mut this = self;
        this.author = Some(author(EmbedAuthor::default()));
        this
    }

    /// Sets the footer of this embed, built by `footer` from a blank footer.
    pub fn set_footer<F: FnOnce(EmbedFooter) -> EmbedFooter>(self, footer: F) -> (r: Self)
        requires
            forall|blank: EmbedFooter| blank.is_blank() ==> call_requires(footer, (blank,)),
        ensures
            exists|blank: EmbedFooter, built: EmbedFooter|
                #![trigger call_ensures(footer, (blank,), built)]
                blank.is_blank() && call_ensures(footer, (blank,), built) && r.footer == Some(built),
            r == (Self { footer: r.footer, ..self }),
    {
        let mut this = self;
        this.footer = Some(footer(EmbedFooter::default()));
        this
    }

    /// Adds a thumbnail to this embed, built by `thumb` from a blank thumbnail.
    pub fn set_thumbnail<F: FnOnce(EmbedThumbnail) -> EmbedThumbnail>(self, thumb: F) -> (r: Self)
        requires
            forall|blank: EmbedThumbnail| blank.is_blank() ==> call_requires(thumb, (blank,)),
        ensures
            exists|blank: EmbedThumbnail, built: EmbedThumbnail|
                #![trigger call_ensures(thumb, (blank,), built)]
                blank.is_blank() && call_ensures(thumb, (blank,), built) && r.thumbnail == Some(built),
            r == (Self { thumbnail: r.thumbnail, ..self }),
    {
        let mut this = self;
        this.thumbnail = Some(thumb(EmbedThumbnail::default()));
        this
    }

    /// Adds an image to this embed, built by `img` from a blank image.
    pub fn set_image<F: FnOnce(EmbedImage) -> EmbedImage>(self, img: F) -> (r: Self)
        requires
            forall|blank: EmbedImage| blank.is_blank() ==> call_requires(img, (blank,)),
        ensures
            exists|blank: EmbedImage, built: EmbedImage|
                #![trigger call_ensures(img, (blank,), built)]
                blank.is_blank() && call_ensures(img, (blank,), built) && r.image == Some(built),
            r == (Self { image: r.image, ..self }),
    {
        let mut this = self;
        this.image = Some(img(EmbedImage::default()));
        this
    }
}

impl Default for Embed {
    fn default() -> (e: Self)
        ensures
            e.is_blank(),
    {
        Embed {
            title: None,
            kind: None,
            description: None,
            url: None,
            timestamp: None,
            color: None,
            footer: None,
            image: None,
            thumbnail: None,
            video: None,
            provider: None,
            author: None,
            fields: Vec::new(),
        }
    }
}

/// An Embed Footer data object.
#[derive(Clone, Debug, PartialEq)]
pub struct EmbedFooter {
    /// The text of this footer.
    pub text: String,
    /// The Icon URL of this footer.
    pub icon_url: String,
    /// The proxied URL of the icon.
    pub proxy_icon_url: String,
}

impl EmbedFooter {
    /// Whether nothing is set in this footer.
    pub open spec fn is_blank(self) -> bool {
        self.text@.len() == 0 && self.icon_url@.len() == 0 && self.proxy_icon_url@.len() == 0
    }

    /// Sets the text for this footer.
    pub fn set_text(self, txt: &str) -> (r: Self)
        ensures
            r.text@ == txt@,
            r == (Self { text: r.text, ..self }),
    {
        let mut this = self;
        this.text = txt.to_owned();
        this
    }

    /// Set the icon URL for this footer.
    pub fn set_icon_url(self, url: &str) -> (r: Self)
        ensures
            r.icon_url@ == url@,
            r == (Self { icon_url: r.icon_url, ..self }),
    {
        let mut this = self;
        this.icon_url = url.to_owned();
        this
    }
}

impl Default for EmbedFooter {
    fn default() -> (f: Self)
        ensures
            f.is_blank(),
    {
        EmbedFooter { text: String::new(), icon_url: String::new(), proxy_icon_url: String::new() }
    }
}

/// An Embed Image data object.
#[derive(Clone, Debug, PartialEq)]
pub struct EmbedImage {
    /// The source URL.
    pub url: Option<String>,
    /// A proxied URL.
    pub proxy_url: Option<String>,
    /// The height.
    pub height: Option<i32>,
    /// The width.
    pub width: Option<i32>,
}

impl EmbedImage {
    /// Whether nothing is set.
    pub open spec fn is_blank(self) -> bool {
        self.url is None && self.proxy_url is None && self.height is None && self.width is None
    }

    /// Set the URL for this image.
    pub fn set_url(self, url: &str) -> (r: Self)
        ensures
            r.url is Some && r.url->0@ == url@,
            r == (Self { url: r.url, ..self }),
    {
        let mut this = self;
        this.url = Some(url.to_owned());
        this
    }
}

impl Default for EmbedImage {
    fn default() -> (x: Self)
        ensures
            x.is_blank(),
    {
        EmbedImage { url: None, proxy_url: None, height: None, width: None }
    }
}

/// An Embed Thumbnail data object.
#[derive(Clone, Debug, PartialEq)]
pub struct EmbedThumbnail {
    /// The source URL.
    pub url: Option<String>,
    /// A proxied URL.
    pub proxy_url: Option<String>,
    /// The height.
    pub height: Option<i32>,
    /// The width.
    pub width: Option<i32>,
}

impl EmbedThumbnail {
    /// Whether nothing is set.
    pub open spec fn is_blank(self) -> bool {
        self.url is None && self.proxy_url is None && self.height is None && self.width is None
    }

    /// Set the URL of this thumbnail.
    pub fn set_url(self, url: &str) -> (r: Self)
        ensures
            r.url is Some && r.url->0@ == url@,
            r == (Self { url: r.url, ..self }),
    {
        let mut this = self;
        this.url = Some(url.to_owned());
        this
    }
}

impl Default for EmbedThumbnail {
    fn default() -> (x: Self)
        ensures
            x.is_blank(),
    {
        EmbedThumbnail { url: None, proxy_url: None, height: None, width: None }
    }
}

/// An Embed Video data object.
#[derive(Clone, Debug, Default, PartialEq)]
pub struct EmbedVideo {
    /// The source URL of the video.
    pub url: Option<String>,
    /// The height of the video.
    pub height: Option<i32>,
    /// The width of the video.
    pub width: Option<i32>,
}

/// Information about the embed's provider.
#[derive(Clone, Debug, Default, PartialEq)]
pub struct EmbedProvider {
    /// The name of the provider.
    pub name: Option<String>,
    /// The url of the provider.
    pub url: Option<String>,
}

/// Information about the embed's author.
#[derive(Clone, Debug, PartialEq)]
pub struct EmbedAuthor {
    /// The name of the author.
    pub name: Option<String>,
    /// The URL of the author.
    pub url: Option<String>,
    /// The URL of the author's icon.
    pub icon_url: Option<String>,
    /// A proxied version of the author's icon.
    pub proxy_icon_url: Option<String>,
}

impl EmbedAuthor {
    /// Whether nothing is set.
    pub open spec fn is_blank(self) -> bool {
        self.name is None && self.url is None && self.icon_url is None && self.proxy_icon_url is None
    }

    /// Set the name of the author.
    pub fn set_name(self, name: &str) -> (r: Self)
        ensures
            r.name is Some && r.name->0@ == name@,
            r == (Self { name: r.name, ..self }),
    {
        let mut this = self;
        this.name = Some(name.to_owned());
        this
    }

    /// Set the URL for this author.
    pub fn set_url(self, url: &str) -> (r: Self)
        ensures
            r.url is Some && r.url->0@ == url@,
            r == (Self { url: r.url, ..self }),
    {
        let mut this = self;
        this.url = Some(url.to_owned());
        this
    }

    /// Set the author's icon URL.
    pub fn set_icon_url(self, url: &str) -> (r: Self)
        ensures
            r.icon_url is Some && r.icon_url->0@ == url@,
            r == (Self { icon_url: r.icon_url, ..self }),
    {
        let mut this = self;
        this.icon_url = Some(url.to_owned());
        this
    }
}

impl Default for EmbedAuthor {
    fn default() -> (a: Self)
        ensures
            a.is_blank(),
    {
        EmbedAuthor { name: None, url: None, icon_url: None, proxy_icon_url: None }
    }
}

/// Represents an Embed Field object.
#[derive(Clone, Debug, PartialEq)]
pub struct EmbedField {
    /// The name of the field.
    pub name: String,
    /// The value of the field.
    pub value: String,
    /// Whether or not this field should display as inline.
    pub inline: Option<bool>,
}

impl EmbedField {
    /// Whether nothing is set.
    pub open spec fn is_blank(self) -> bool {
        self.name@.len() == 0 && self.value@.len() == 0 && self.inline is None
    }

    /// Sets the name of this field.
    pub fn set_name(self, name: &str) -> (r: Self)
        ensures
            r.name@ == name@,
            r == (Self { name: r.name, ..self }),
    {
        let mut this = self;
        this.name = name.to_owned();
        this
    }

    /// Sets the value of this field.
    pub fn set_value(self, val: &str) -> (r: Self)
        ensures
            r.value@ == val@,
            r == (Self { value: r.value, ..self }),
    {
        let mut this = self;
        this.value = val.to_owned();
        this
    }
}

impl Default for EmbedField {
    fn default() -> (f: Self)
        ensures
            f.is_blank(),
    {
        EmbedField { name: String::new(), value: String::new(), inline: None }
    }
}

} // verus!
