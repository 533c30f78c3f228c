use vstd::prelude::*;

verus! {

/// Registration is open (it has no settings yet).
pub struct Registration {}

/// A captcha provider (none is supported yet).
pub struct Captcha {}

/// E-mail is set up (it has no settings yet).
pub struct Email {}

/// Voice channels are available (they have no settings yet).
pub struct Voice {}

/// Media uploads are available.
pub struct Media {
    /// The largest upload, in bytes.
    pub max_size: u64,
}

/// Links in messages get embeds (there are no settings yet).
pub struct UrlEmbed {}

/// Logging in through other services.
pub struct Oauth {
    pub providers: Vec<OauthProvider>,
}

/// A service users can log in through.
pub struct OauthProvider {
    /// The name shown to users.
    pub name: String,
    /// The name used in the API.
    pub id: String,
}

/// Experimental features (there are none at present).
pub struct Experiments {}

/// The parts of the server's configuration that clients are told of.
pub struct ServerFeatures {
    pub registration: Option<Registration>,
    pub captcha: Option<Captcha>,
    pub email: Option<Email>,
    pub voice: Option<Voice>,
    pub media: Option<Media>,
    pub url_embed: Option<UrlEmbed>,
    pub oauth: Option<Oauth>,
    pub experiments: Option<Experiments>,
}

/// The login providers shown to clients: one per configured provider, in
/// the order given, named by its id.
pub fn oauth_providers(ids: &Vec<String>) -> (res: Vec<OauthProvider>)
    ensures
        res@.len() == ids@.len(),
        forall|i: int|
            0 <= i < ids@.len() ==> (#[trigger] res@[i]).id@ == ids@[i]@ && res@[i].name@
                == ids@[i]@,
{
    let mut out: Vec<OauthProvider> = Vec::new();
    let mut i: usize = 0;
    while i < ids.len()
        invariant
            i <= ids.len(),
            out@.len() == i,
            forall|k: int|
                0 <= k < i ==> (#[trigger] out@[k]).id@ == ids@[k]@ && out@[k].name@ == ids@[k]@,
        decreases ids.len() - i,
    {
        out.push(OauthProvider { name: ids[i].clone(), id: ids[i].clone() });
        i = i + 1;
    }
    out
}

/// The features the server advertises: registration, e-mail, media up to
/// `media_max_size` bytes, login through the configured providers and link
/// embeds; no captcha, no voice (not advertised for now) and no experiments.
pub fn server_features(media_max_size: u64, provider_ids: &Vec<String>) -> (res: ServerFeatures)
    ensures
        res.registration is Some,
        res.captcha is None,
        res.email is Some,
        res.voice is None,
        res.media matches Some(m) && m.max_size == media_max_size,
        res.url_embed is Some,
        res.experiments is None,
        res.oauth matches Some(o) && o.providers@.len() == provider_ids@.len() && forall|i: int|
            0 <= i < provider_ids@.len() ==> (#[trigger] o.providers@[i]).id@ == provider_ids@[i]@
                && o.providers@[i].name@ == provider_ids@[i]@,
{
    ServerFeatures {
        registration: Some(Registration {  }),
        captcha: None,
        email: Some(Email {  }),
        voice: None,
        media: Some(Media { max_size: media_max_size }),
        url_embed: Some(UrlEmbed {  }),
        oauth: Some(Oauth { providers: oauth_providers(provider_ids) }),
        experiments: None,
    }
}

} // verus!
