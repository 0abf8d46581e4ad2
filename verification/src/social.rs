//! Records of the social graph: profiles, posts and the images they carry.
//!
//! Each record is handed over already decoded; the views below are what the
//! contracts of this crate speak of.

use crate::text::join;
use crate::text::same_text;
use vstd::prelude::*;

verus! {

/// A reference to one token of an NFT contract.
#[derive(Debug, PartialEq, Eq)]
pub struct Nft {
    pub token_id: Option<String>,
    pub contract_id: Option<String>,
}

pub struct NftView {
    pub token_id: Option<Seq<char>>,
    pub contract_id: Option<Seq<char>>,
}

impl DeepView for Nft {
    type V = NftView;

    open spec fn deep_view(&self) -> NftView {
        NftView { token_id: self.token_id.deep_view(), contract_id: self.contract_id.deep_view() }
    }
}

impl View for Nft {
    type V = NftView;

    open spec fn view(&self) -> NftView {
        self.deep_view()
    }
}

impl Clone for Nft {
    fn clone(&self) -> (r: Self)
        ensures
            r == *self,
    {
        Nft { token_id: self.token_id.clone(), contract_id: self.contract_id.clone() }
    }
}

/// An image of a profile or a post: a URL, a content id, or a token.
#[derive(Debug, PartialEq, Eq)]
pub struct Image {
    pub url: Option<String>,
    pub ipfs_cid: Option<String>,
    pub nft: Option<Nft>,
}

pub struct ImageView {
    pub url: Option<Seq<char>>,
    pub ipfs_cid: Option<Seq<char>>,
    pub nft: Option<NftView>,
}

impl DeepView for Image {
    type V = ImageView;

    open spec fn deep_view(&self) -> ImageView {
        ImageView {
            url: self.url.deep_view(),
            ipfs_cid: self.ipfs_cid.deep_view(),
            nft: self.nft.deep_view(),
        }
    }
}

impl View for Image {
    type V = ImageView;

    open spec fn view(&self) -> ImageView {
        self.deep_view()
    }
}

impl Clone for Image {
    fn clone(&self) -> (r: Self)
        ensures
            r == *self,
    {
        Image {
            url: self.url.clone(),
            ipfs_cid: self.ipfs_cid.clone(),
            nft: match &self.nft {
                Some(nft) => Some(nft.clone()),
                None => None,
            },
        }
    }
}

/// What a profile says of its account.
#[derive(Debug, PartialEq, Eq)]
pub struct Profile {
    pub name: Option<String>,
    pub description: Option<String>,
    pub image: Option<Image>,
}

pub struct ProfileView {
    pub name: Option<Seq<char>>,
    pub description: Option<Seq<char>>,
    pub image: Option<ImageView>,
}

impl DeepView for Profile {
    type V = ProfileView;

    open spec fn deep_view(&self) -> ProfileView {
        ProfileView {
            name: self.name.deep_view(),
            description: self.description.deep_view(),
            image: self.image.deep_view(),
        }
    }
}

impl View for Profile {
    type V = ProfileView;

    open spec fn view(&self) -> ProfileView {
        self.deep_view()
    }
}

impl Clone for Profile {
    fn clone(&self) -> (r: Self)
        ensures
            r == *self,
    {
        Profile {
            name: self.name.clone(),
            description: self.description.clone(),
            image: match &self.image {
                Some(image) => Some(image.clone()),
                None => None,
            },
        }
    }
}

/// The profile that says nothing.
pub open spec fn empty_profile() -> ProfileView {
    ProfileView { name: None, description: None, image: None }
}

impl Default for Profile {
    fn default() -> (r: Self)
        ensures
            r@ == empty_profile(),
    {
        Profile { name: None, description: None, image: None }
    }
}

/// The content of a post or of a comment.
#[derive(Debug, PartialEq, Eq)]
pub struct Content {
    pub text: Option<String>,
    pub image: Option<Image>,
}

pub struct ContentView {
    pub text: Option<Seq<char>>,
    pub image: Option<ImageView>,
}

impl DeepView for Content {
    type V = ContentView;

    open spec fn deep_view(&self) -> ContentView {
        ContentView { text: self.text.deep_view(), image: self.image.deep_view() }
    }
}

impl View for Content {
    type V = ContentView;

    open spec fn view(&self) -> ContentView {
        self.deep_view()
    }
}

impl Clone for Content {
    fn clone(&self) -> (r: Self)
        ensures
            r == *self,
    {
        Content {
            text: self.text.clone(),
            image: match &self.image {
                Some(image) => Some(image.clone()),
                None => None,
            },
        }
    }
}

/// What an account has posted at one block height. Each field holds the
/// decoded content; it is `None` where the account posted nothing of that
/// kind there, or posted text that is no content record.
#[derive(Clone, Debug, PartialEq, Eq)]
pub struct Post {
    pub main: Option<Content>,
    pub comment: Option<Content>,
}

pub struct PostView {
    pub main: Option<ContentView>,
    pub comment: Option<ContentView>,
}

impl DeepView for Post {
    type V = PostView;

    open spec fn deep_view(&self) -> PostView {
        PostView { main: self.main.deep_view(), comment: self.comment.deep_view() }
    }
}

impl View for Post {
    type V = PostView;

    open spec fn view(&self) -> PostView {
        self.deep_view()
    }
}

/// What a snapshot holds of one account.
#[derive(Clone, Debug, PartialEq, Eq)]
pub struct AccountData {
    pub profile: Option<Profile>,
    pub post: Option<Post>,
}

pub struct AccountDataView {
    pub profile: Option<ProfileView>,
    pub post: Option<PostView>,
}

impl DeepView for AccountData {
    type V = AccountDataView;

    open spec fn deep_view(&self) -> AccountDataView {
        AccountDataView { profile: self.profile.deep_view(), post: self.post.deep_view() }
    }
}

impl View for AccountData {
    type V = AccountDataView;

    open spec fn view(&self) -> AccountDataView {
        self.deep_view()
    }
}

/// A snapshot of the social graph: account ids, each with its data. An id
/// is looked up from the front, so of two entries with one id the first
/// counts.
#[derive(Clone, Debug, PartialEq, Eq)]
pub struct Social(pub Vec<(String, AccountData)>);

impl DeepView for Social {
    type V = Seq<(Seq<char>, AccountDataView)>;

    open spec fn deep_view(&self) -> Seq<(Seq<char>, AccountDataView)> {
        self.0.deep_view()
    }
}

impl View for Social {
    type V = Seq<(Seq<char>, AccountDataView)>;

    open spec fn view(&self) -> Seq<(Seq<char>, AccountDataView)> {
        self.deep_view()
    }
}

/// The data of the first entry of `accounts` whose id is `id`.
pub open spec fn account_in(accounts: Seq<(Seq<char>, AccountDataView)>, id: Seq<char>) -> Option<
    AccountDataView,
>
    decreases accounts.len(),
{
    if accounts.len() == 0 {
        None
    } else if accounts[0].0 == id {
        Some(accounts[0].1)
    } else {
        account_in(accounts.skip(1), id)
    }
}

impl Default for Social {
    fn default() -> (r: Self)
        ensures
            r@ == Seq::<(Seq<char>, AccountDataView)>::empty(),
    {
        Social(Vec::new())
    }
}

impl Social {
    /// The data that the snapshot holds of `account_id`.
    pub fn account(&self, account_id: &str) -> (r: Option<&AccountData>)
        ensures
            r.deep_view() == account_in(self@, account_id@),
    {
        let mut i: usize = 0;
        assert(self@.skip(0) =~= self@);
        while i < self.0.len()
            invariant
                i <= self.0.len(),
                account_in(self@, account_id@) == account_in(self@.skip(i as int), account_id@),
            decreases self.0.len() - i,
        {
            let entry = &self.0[i];
            assert(self@.skip(i as int).skip(1) =~= self@.skip(i + 1));
            if same_text(entry.0.as_str(), account_id) {
                return Some(&entry.1);
            }
            i += 1;
        }
        None
    }
}

/// Where an image is to be had: at a URL, or from a token that has to be
/// resolved first.
#[derive(Clone, Debug, PartialEq, Eq)]
pub enum UrlOrNft {
    Url(String),
    Nft(String, String),
}

pub enum UrlOrNftView {
    Url(Seq<char>),
    Nft(Seq<char>, Seq<char>),
}

impl DeepView for UrlOrNft {
    type V = UrlOrNftView;

    open spec fn deep_view(&self) -> UrlOrNftView {
        match self {
            UrlOrNft::Url(url) => UrlOrNftView::Url(url@),
            UrlOrNft::Nft(contract_id, token_id) => UrlOrNftView::Nft(contract_id@, token_id@),
        }
    }
}

impl View for UrlOrNft {
    type V = UrlOrNftView;

    open spec fn view(&self) -> UrlOrNftView {
        self.deep_view()
    }
}

/// Where `image` is to be had. A URL counts before a content id, which is
/// read through the content gateway, and a content id before a token; a
/// token reference counts only with both of its ids.
pub open spec fn image_target(image: ImageView) -> Option<UrlOrNftView> {
    if image.url is Some {
        Some(UrlOrNftView::Url(image.url->0))
    } else if image.ipfs_cid is Some {
        Some(UrlOrNftView::Url("https://ipfs.near.social/ipfs/"@ + image.ipfs_cid->0))
    } else if image.nft is Some && image.nft->0.token_id is Some && image.nft->0.contract_id
        is Some {
        Some(UrlOrNftView::Nft(image.nft->0.contract_id->0, image.nft->0.token_id->0))
    } else {
        None
    }
}

/// Turns an image record into a URL or a token to resolve.
pub fn image_to_url(image: Image) -> (r: Option<UrlOrNft>)
    ensures
        r.deep_view() == image_target(image@),
{
    if let Some(url) = image.url {
        Some(UrlOrNft::Url(url))
    } else if let Some(ipfs_cid) = image.ipfs_cid {
        Some(UrlOrNft::Url(join("https://ipfs.near.social/ipfs/", ipfs_cid.as_str())))
    } else if let Some(nft) = image.nft {
        match (nft.contract_id, nft.token_id) {
            (Some(contract_id), Some(token_id)) => Some(UrlOrNft::Nft(contract_id, token_id)),
            _ => None,
        }
    } else {
        None
    }
}

} // verus!
