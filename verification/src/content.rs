//! Offers and blog posts: the records, what is shown of them, and what an
//! upload form makes of their picture. A picture and its MIME label are
//! stored together or not at all, and only in normalised form.

use vstd::prelude::*;
use crate::error::AppError;
use crate::images::{
    delivers, process_image_upload, UploadedFile,
};
use crate::time::Timestamp;

verus! {

/// A row of the table of offers.
#[derive(Debug, Clone, PartialEq, Eq)]
pub struct Offer {
    pub id: i64,
    pub title: String,
    pub slug: String,
    pub description: Option<String>,
    pub link: Option<String>,
    pub image: Option<Vec<u8>>,
    pub image_mime: Option<String>,
    pub created_at: Timestamp,
}

/// An offer on its way into the table.
#[derive(Debug, Clone, PartialEq, Eq)]
pub struct NewOffer {
    pub title: String,
    pub slug: String,
    pub description: Option<String>,
    pub link: Option<String>,
    pub image: Option<Vec<u8>>,
    pub image_mime: Option<String>,
}

/// What is shown of an offer: everything but the picture's bytes, which
/// are served on their own.
#[derive(Debug, Clone, PartialEq, Eq)]
pub struct OfferDto {
    pub id: i64,
    pub title: String,
    pub slug: String,
    pub description: Option<String>,
    pub link: Option<String>,
    pub image_mime: Option<String>,
    pub created_at: Timestamp,
}

/// The form that creates an offer.
#[derive(Debug, Clone)]
pub struct AdminCreateOfferMultipart {
    pub title: String,
    pub slug: String,
    pub description: Option<String>,
    pub link: Option<String>,
    pub image: Option<UploadedFile>,
}

/// The form that changes an offer.
#[derive(Debug, Clone)]
pub struct AdminUpdateOfferMultipart {
    pub title: String,
    pub slug: String,
    pub description: Option<String>,
    pub link: Option<String>,
    /// Only there if a new picture was uploaded.
    pub image: Option<UploadedFile>,
    /// Keep the stored picture if no new one was uploaded.
    pub keep_existing_image: Option<bool>,
}

/// A row of the table of blog posts.
#[derive(Debug, Clone, PartialEq, Eq)]
pub struct BlogPost {
    pub id: i64,
    pub title: String,
    pub slug: String,
    pub excerpt: Option<String>,
    pub content: String,
    pub image: Option<Vec<u8>>,
    pub image_mime: Option<String>,
    pub published: bool,
    pub created_at: Timestamp,
    pub updated_at: Timestamp,
}

/// A blog post on its way into the table.
#[derive(Debug, Clone, PartialEq, Eq)]
pub struct NewBlogPost {
    pub title: String,
    pub slug: String,
    pub excerpt: Option<String>,
    pub content: String,
    pub image: Option<Vec<u8>>,
    pub image_mime: Option<String>,
    pub published: bool,
}

/// What is shown of a blog post.
#[derive(Debug, Clone, PartialEq, Eq)]
pub struct BlogPostDto {
    pub id: i64,
    pub title: String,
    pub slug: String,
    pub excerpt: Option<String>,
    pub content: String,
    pub image_mime: Option<String>,
    pub published: bool,
    pub created_at: Timestamp,
    pub updated_at: Timestamp,
}

/// The form that creates a blog post.
#[derive(Debug, Clone)]
pub struct AdminCreateBlogPostMultipart {
    pub title: String,
    pub slug: String,
    pub excerpt: Option<String>,
    pub content: String,
    pub image: Option<UploadedFile>,
    pub published: Option<bool>,
}

/// The form that changes a blog post.
#[derive(Debug, Clone)]
pub struct AdminUpdateBlogPostMultipart {
    pub title: String,
    pub slug: String,
    pub excerpt: Option<String>,
    pub content: String,
    pub image: Option<UploadedFile>,
    pub published: Option<bool>,
}

/// What an update does to the stored picture.
#[derive(Debug, Clone, PartialEq, Eq)]
pub enum ImageChange {
    /// Store these bytes under this MIME label.
    Replace(Vec<u8>, String),
    /// Leave the stored picture as it is.
    Keep,
    /// Remove the stored picture and its label.
    Clear,
}

/// The new values of an offer's row.
#[derive(Debug, Clone, PartialEq, Eq)]
pub struct OfferUpdate {
    pub title: String,
    pub slug: String,
    pub description: Option<String>,
    pub link: Option<String>,
    pub image: ImageChange,
}

/// The new values of a blog post's row.
#[derive(Debug, Clone, PartialEq, Eq)]
pub struct BlogPostUpdate {
    pub title: String,
    pub slug: String,
    pub excerpt: Option<String>,
    pub content: String,
    pub image: ImageChange,
    pub published: bool,
}

/// Whether a stored picture and its label are what comes of the file of an
/// upload form: both absent without a file, both present with the stored
/// bytes and the label of their format. One without the other never is.
pub open spec fn attachment_is(
    image: Option<Vec<u8>>,
    mime: Option<String>,
    file: Option<UploadedFile>,
) -> bool {
    match (image, mime) {
        (None, None) => delivers(Ok(None), file),
        (Some(bytes), Some(label)) => delivers(Ok(Some((bytes, label))), file),
        _ => false,
    }
}

/// Whether a change of picture is what comes of the file of an upload form,
/// given the wish `keep` for the case that no file came: a picture that
/// was stored replaces the old one; without a file the old one is kept or
/// removed as wished.
pub open spec fn change_is(change: ImageChange, file: Option<UploadedFile>, keep: bool) -> bool {
    match change {
        ImageChange::Replace(bytes, label) => delivers(Ok(Some((bytes, label))), file),
        ImageChange::Keep => keep && delivers(Ok(None), file),
        ImageChange::Clear => !keep && delivers(Ok(None), file),
    }
}

/// Whether an error is what comes of the file of an upload form.
pub open spec fn upload_fails(e: AppError, file: Option<UploadedFile>) -> bool {
    delivers(Err(e), file)
}

/// The flag, or `false` where it is absent.
pub open spec fn flag(f: Option<bool>) -> bool {
    match f {
        Some(b) => b,
        None => false,
    }
}

/// The flag, or `false` where it is absent.
pub fn flag_or_false(f: Option<bool>) -> (r: bool)
    ensures
        r == flag(f),
{
    match f {
        Some(b) => b,
        None => false,
    }
}

impl Offer {
    /// What is shown of this offer.
    pub open spec fn dto(self) -> OfferDto {
        OfferDto {
            id: self.id,
            title: self.title,
            slug: self.slug,
            description: self.description,
            link: self.link,
            image_mime: self.image_mime,
            created_at: self.created_at,
        }
    }

    /// What is shown of this offer.
    pub fn into_dto(self) -> (r: OfferDto)
        ensures
            r == self.dto(),
    {
        OfferDto {
            id: self.id,
            title: self.title,
            slug: self.slug,
            description: self.description,
            link: self.link,
            image_mime: self.image_mime,
            created_at: self.created_at,
        }
    }
}

impl BlogPost {
    /// What is shown of this post.
    pub open spec fn dto(self) -> BlogPostDto {
        BlogPostDto {
            id: self.id,
            title: self.title,
            slug: self.slug,
            excerpt: self.excerpt,
            content: self.content,
            image_mime: self.image_mime,
            published: self.published,
            created_at: self.created_at,
            updated_at: self.updated_at,
        }
    }

    /// What is shown of this post.
    pub fn into_dto(self) -> (r: BlogPostDto)
        ensures
            r == self.dto(),
    {
        BlogPostDto {
            id: self.id,
            title: self.title,
            slug: self.slug,
            excerpt: self.excerpt,
            content: self.content,
            image_mime: self.image_mime,
            published: self.published,
            created_at: self.created_at,
            updated_at: self.updated_at,
        }
    }
}

/// The picture of a stored record as it is served: its bytes under its
/// label, or under `image/jpeg` where it has none. A record that is
/// missing or has no picture is not found.
pub fn served_image(record: Option<(Option<Vec<u8>>, Option<String>)>) -> (r: Result<
    (String, Vec<u8>),
    AppError,
>)
    ensures
        match record {
            Some((Some(bytes), Some(mime))) => r == Ok::<(String, Vec<u8>), AppError>(
                (mime, bytes),
            ),
            Some((Some(bytes), None)) => r matches Ok((m, b)) && b == bytes && m@
                == "image/jpeg"@,
            _ => r == Err::<(String, Vec<u8>), AppError>(AppError::NotFound),
        },
{
    match record {
        Some((Some(bytes), mime)) => {
            let label = match mime {
                Some(m) => m,
                None => "image/jpeg".to_owned(),
            };
            Ok((label, bytes))
        },
        _ => Err(AppError::NotFound),
    }
}

/// The picture of an offer as it is served.
pub fn get_offer_image(offer: Option<Offer>) -> (r: Result<(String, Vec<u8>), AppError>)
    ensures
        match offer {
            Some(o) => match (o.image, o.image_mime) {
                (Some(bytes), Some(mime)) => r == Ok::<(String, Vec<u8>), AppError>(
                    (mime, bytes),
                ),
                (Some(bytes), None) => r matches Ok((m, b)) && b == bytes && m@
                    == "image/jpeg"@,
                _ => r == Err::<(String, Vec<u8>), AppError>(AppError::NotFound),
            },
            None => r == Err::<(String, Vec<u8>), AppError>(AppError::NotFound),
        },
{
    match offer {
        Some(o) => served_image(Some((o.image, o.image_mime))),
        None => served_image(None),
    }
}

/// The picture of a blog post as it is served.
pub fn get_blog_post_image(post: Option<BlogPost>) -> (r: Result<(String, Vec<u8>), AppError>)
    ensures
        match post {
            Some(p) => match (p.image, p.image_mime) {
                (Some(bytes), Some(mime)) => r == Ok::<(String, Vec<u8>), AppError>(
                    (mime, bytes),
                ),
                (Some(bytes), None) => r matches Ok((m, b)) && b == bytes && m@
                    == "image/jpeg"@,
                _ => r == Err::<(String, Vec<u8>), AppError>(AppError::NotFound),
            },
            None => r == Err::<(String, Vec<u8>), AppError>(AppError::NotFound),
        },
{
    match post {
        Some(p) => served_image(Some((p.image, p.image_mime))),
        None => served_image(None),
    }
}

/// What is shown of a list of offers, in the same order.
pub fn list_offers(offers: Vec<Offer>) -> (r: Vec<OfferDto>)
    ensures
        r@.len() == offers@.len(),
        forall|i: int| 0 <= i < offers@.len() ==> r@[i] == (#[trigger] offers@[i]).dto(),
{
    let mut shown: Vec<OfferDto> = Vec::new();
    for offer in it: offers.into_iter()
        invariant
            it.seq() == offers@,
            shown@.len() == it.index(),
            forall|i: int| 0 <= i < shown@.len() ==> shown@[i] == (#[trigger] offers@[i]).dto(),
    {
        shown.push(offer.into_dto());
    }
    shown
}

/// Which posts of a list are shown to the public: among the first `n`, the
/// published ones, in the same order.
pub open spec fn published_among(posts: Seq<BlogPost>, n: int) -> Seq<BlogPostDto>
    decreases n,
{
    if n <= 0 || n > posts.len() {
        Seq::<BlogPostDto>::empty()
    } else if posts[n - 1].published {
        published_among(posts, n - 1).push(posts[n - 1].dto())
    } else {
        published_among(posts, n - 1)
    }
}

/// What the public is shown of a list of blog posts: the published ones, in
/// the same order.
pub fn list_blog_posts(posts: Vec<BlogPost>) -> (r: Vec<BlogPostDto>)
    ensures
        r@ == published_among(posts@, posts@.len() as int),
{
    let mut shown: Vec<BlogPostDto> = Vec::new();
    for post in it: posts.into_iter()
        invariant
            it.seq() == posts@,
            shown@ == published_among(posts@, it.index() as int),
    {
        if post.published {
            shown.push(post.into_dto());
        }
    }
    shown
}

/// What an admin is shown of a list of blog posts: every post, published or
/// not, in the same order. Anyone else is refused.
pub fn list_all_blog_posts(authenticated: bool, posts: Vec<BlogPost>) -> (r: Result<
    Vec<BlogPostDto>,
    AppError,
>)
    ensures
        !authenticated ==> r == Err::<Vec<BlogPostDto>, AppError>(AppError::Unauthorized),
        authenticated ==> (r matches Ok(shown) && shown@.len() == posts@.len() && forall|i: int|
            0 <= i < posts@.len() ==> shown@[i] == (#[trigger] posts@[i]).dto()),
{
    if !authenticated {
        return Err(AppError::Unauthorized);
    }
    let mut shown: Vec<BlogPostDto> = Vec::new();
    for post in it: posts.into_iter()
        invariant
            it.seq() == posts@,
            shown@.len() == it.index(),
            forall|i: int| 0 <= i < shown@.len() ==> shown@[i] == (#[trigger] posts@[i]).dto(),
    {
        shown.push(post.into_dto());
    }
    Ok(shown)
}

/// What the public is shown of the post with a given slug: the post if
/// there is one and it is published, else nothing is found.
pub fn get_blog_post_by_slug(post: Option<BlogPost>) -> (r: Result<BlogPostDto, AppError>)
    ensures
        match post {
            Some(p) => if p.published {
                r == Ok::<BlogPostDto, AppError>(p.dto())
            } else {
                r == Err::<BlogPostDto, AppError>(AppError::NotFound)
            },
            None => r == Err::<BlogPostDto, AppError>(AppError::NotFound),
        },
{
    match post {
        Some(p) => if p.published {
            Ok(p.into_dto())
        } else {
            Err(AppError::NotFound)
        },
        None => Err(AppError::NotFound),
    }
}

/// The offer that a form creates. Only an admin creates one; the form's
/// picture is stored in normalised form together with its label, or there
/// is neither.
pub fn create_offer(authenticated: bool, form: AdminCreateOfferMultipart) -> (r: Result<
    NewOffer,
    AppError,
>)
    ensures
        !authenticated ==> r == Err::<NewOffer, AppError>(AppError::Unauthorized),
        authenticated ==> match r {
            Ok(o) => {
                &&& o.title == form.title
                &&& o.slug == form.slug
                &&& o.description == form.description
                &&& o.link == form.link
                &&& attachment_is(o.image, o.image_mime, form.image)
            },
            Err(e) => upload_fails(e, form.image),
        },
        authenticated && form.image is None ==> r is Ok,
{
    if !authenticated {
        return Err(AppError::Unauthorized);
    }
    let (image, image_mime) = match process_image_upload(form.image) {
        Ok(Some((bytes, mime))) => (Some(bytes), Some(mime)),
        Ok(None) => (None, None),
        Err(e) => {
            return Err(e);
        },
    };
    Ok(
        NewOffer {
            title: form.title,
            slug: form.slug,
            description: form.description,
            link: form.link,
            image,
            image_mime,
        },
    )
}

/// The change that a form makes to an offer. Only an admin changes one,
/// and only one that exists. A new picture replaces the stored one; without
/// a new picture the stored one is kept if the form says so, else removed.
pub fn update_offer(authenticated: bool, exists: bool, form: AdminUpdateOfferMultipart) -> (r:
    Result<OfferUpdate, AppError>)
    ensures
        !authenticated ==> r == Err::<OfferUpdate, AppError>(AppError::Unauthorized),
        authenticated && !exists ==> r == Err::<OfferUpdate, AppError>(AppError::NotFound),
        authenticated && exists ==> match r {
            Ok(u) => {
                &&& u.title == form.title
                &&& u.slug == form.slug
                &&& u.description == form.description
                &&& u.link == form.link
                &&& change_is(u.image, form.image, flag(form.keep_existing_image))
            },
            Err(e) => upload_fails(e, form.image),
        },
        authenticated && exists && form.image is None ==> r is Ok,
{
    if !authenticated {
        return Err(AppError::Unauthorized);
    }
    if !exists {
        return Err(AppError::NotFound);
    }
    let image = match process_image_upload(form.image) {
        Ok(Some((bytes, mime))) => ImageChange::Replace(bytes, mime),
        Ok(None) => if flag_or_false(form.keep_existing_image) {
            ImageChange::Keep
        } else {
            ImageChange::Clear
        },
        Err(e) => {
            return Err(e);
        },
    };
    Ok(
        OfferUpdate {
            title: form.title,
            slug: form.slug,
            description: form.description,
            link: form.link,
            image,
        },
    )
}

/// The blog post that a form creates. Only an admin creates one; a post is
/// a draft unless the form says otherwise.
pub fn create_blog_post(authenticated: bool, form: AdminCreateBlogPostMultipart) -> (r: Result<
    NewBlogPost,
    AppError,
>)
    ensures
        !authenticated ==> r == Err::<NewBlogPost, AppError>(AppError::Unauthorized),
        authenticated ==> match r {
            Ok(p) => {
                &&& p.title == form.title
                &&& p.slug == form.slug
                &&& p.excerpt == form.excerpt
                &&& p.content == form.content
                &&& p.published == flag(form.published)
                &&& attachment_is(p.image, p.image_mime, form.image)
            },
            Err(e) => upload_fails(e, form.image),
        },
        authenticated && form.image is None ==> r is Ok,
{
    if !authenticated {
        return Err(AppError::Unauthorized);
    }
    let (image, image_mime) = match process_image_upload(form.image) {
        Ok(Some((bytes, mime))) => (Some(bytes), Some(mime)),
        Ok(None) => (None, None),
        Err(e) => {
            return Err(e);
        },
    };
    Ok(
        NewBlogPost {
            title: form.title,
            slug: form.slug,
            excerpt: form.excerpt,
            content: form.content,
            image,
            image_mime,
            published: flag_or_false(form.published),
        },
    )
}

/// The change that a form makes to a blog post. Only an admin changes one,
/// and only one that exists. A new picture replaces the stored one; without
/// a new picture the stored one is kept.
pub fn update_blog_post(authenticated: bool, exists: bool, form: AdminUpdateBlogPostMultipart) -> (r:
    Result<BlogPostUpdate, AppError>)
    ensures
        !authenticated ==> r == Err::<BlogPostUpdate, AppError>(AppError::Unauthorized),
        authenticated && !exists ==> r == Err::<BlogPostUpdate, AppError>(AppError::NotFound),
        authenticated && exists ==> match r {
            Ok(u) => {
                &&& u.title == form.title
                &&& u.slug == form.slug
                &&& u.excerpt == form.excerpt
                &&& u.content == form.content
                &&& u.published == flag(form.published)
                &&& change_is(u.image, form.image, true)
            },
            Err(e) => upload_fails(e, form.image),
        },
        authenticated && exists && form.image is None ==> r is Ok,
{
    if !authenticated {
        return Err(AppError::Unauthorized);
    }
    if !exists {
        return Err(AppError::NotFound);
    }
    let image = match process_image_upload(form.image) {
        Ok(Some((bytes, mime))) => ImageChange::Replace(bytes, mime),
        Ok(None) => ImageChange::Keep,
        Err(e) => {
            return Err(e);
        },
    };
    Ok(
        BlogPostUpdate {
            title: form.title,
            slug: form.slug,
            excerpt: form.excerpt,
            content: form.content,
            image,
            published: flag_or_false(form.published),
        },
    )
}

} // verus!
