//! Arguments and verified logic of the `webhook` command.

use vstd::prelude::*;

use crate::cli::client::{ApiBase, ClientSpec, CloudFeature, Credential};
use crate::cli::{format_for, output_format, GlobalOptions, OutputFormat};
use crate::config::Config;
use crate::context::{origin_chars, resolved_as, ContextResolver, HostType, RepoContext, RepoModel};
use crate::error::Error;
use crate::text::{
    clone_opt, concat2, concat3, concat5, decimal, join, join_spec, str_eq, strings_of, u64_to_string,
};

verus! {

/// Manage repository webhooks
#[derive(Debug)]
pub struct WebhookCommand {
    pub command: WebhookSubcommand,
}

#[derive(Debug)]
pub enum WebhookSubcommand {
    /// List webhooks
    List,

    /// View webhook details
    View(ViewArgs),

    /// Create a new webhook
    Create(CreateArgs),

    /// Edit an existing webhook
    Edit(EditArgs),

    /// Delete a webhook
    Delete(DeleteArgs),

    /// View webhook deliveries (Cloud only)
    Deliveries(DeliveriesArgs),

    /// Test a webhook
    Test(TestArgs),
}

#[derive(Debug)]
pub struct ViewArgs {
    /// Webhook UUID
    pub uuid: String,
}

#[derive(Debug)]
pub struct CreateArgs {
    /// Webhook URL
    pub url: String,

    /// Description
    pub description: Option<String>,

    /// Events to listen for (comma-separated)
    pub events: Vec<String>,

    /// Secret for webhook signature verification
    pub secret: Option<String>,

    /// Create as active (default: true)
    pub active: bool,

    /// Skip SSL verification
    pub skip_cert_verification: bool,
}

#[derive(Debug)]
pub struct EditArgs {
    /// Webhook UUID
    pub uuid: String,

    /// New URL
    pub url: Option<String>,

    /// New description
    pub description: Option<String>,

    /// Add events to listen for
    pub add_event: Vec<String>,

    /// Remove events
    pub remove_event: Vec<String>,

    /// New secret
    pub secret: Option<String>,

    /// Set active state
    pub active: Option<bool>,
}

#[derive(Debug)]
pub struct DeleteArgs {
    /// Webhook UUID
    pub uuid: String,

    /// Skip confirmation
    pub confirm: bool,
}

#[derive(Debug)]
pub struct DeliveriesArgs {
    /// Webhook UUID
    pub uuid: String,

    /// Maximum number of deliveries to show
    pub limit: usize,
}

#[derive(Debug)]
pub struct TestArgs {
    /// Webhook UUID
    pub uuid: String,
}

impl WebhookCommand {
    /// JSON output where `--json` was given, a table otherwise.
    pub fn get_format(&self, global: &GlobalOptions) -> (r: OutputFormat)
        ensures
            r == format_for(global.json),
    {
        output_format(global)
    }

    /// The repository to work on, resolved from the options and the
    /// `origin` remote URL of the current git repository.
    pub fn resolve_context(&self, global: &GlobalOptions, config: Config, origin_url: Option<&str>) -> (r: Result<RepoContext, Error>)
        ensures
            resolved_as(r, global, origin_chars(origin_url)),
    {
        let resolver = ContextResolver::new(config);
        resolver.resolve(global, origin_url)
    }

    /// The client for `ctx`, given the token stored for its host: Cloud's
    /// API or the Server host's, with the token as OAuth access token.
    pub fn get_client(&self, ctx: &RepoContext, token: Option<String>) -> (r: Result<ClientSpec, Error>)
        ensures
            match token {
                Some(t) => r matches Ok(c) && c.credential == (Credential::OAuth { access_token: t })
                    && match ctx.host_type {
                    HostType::Cloud => c.base == ApiBase::Cloud,
                    HostType::Server => c.base matches ApiBase::Server { host } && host == ctx.host,
                },
                None => r == Err::<ClientSpec, Error>(Error::NotAuthenticated),
            },
    {
        let base = match ctx.host_type {
            HostType::Cloud => ApiBase::Cloud,
            HostType::Server => ApiBase::Server { host: ctx.host.clone() },
        };
        match token {
            Some(t) => Ok(ClientSpec { base, credential: Credential::OAuth { access_token: t } }),
            None => Err(Error::NotAuthenticated),
        }
    }
}


// ---------------------------------------------------------------------
// Where the webhooks are, and what an edit sends
// ---------------------------------------------------------------------

/// The webhooks of the repository, or webhook `uuid`.
pub open spec fn hooks_path_spec(m: RepoModel, uuid: Option<Seq<char>>) -> Seq<char> {
    (if m.host_type == HostType::Cloud {
        "/repositories/"@ + m.owner + "/"@ + m.repo_slug + "/hooks"@
    } else {
        "/projects/"@ + m.owner + "/repos/"@ + m.repo_slug + "/webhooks"@
    }) + match uuid {
        Some(u) => "/"@ + u,
        None => Seq::<char>::empty(),
    }
}

/// The events after adding `add`, in order, each one not already there.
pub open spec fn with_events_spec(cur: Seq<Seq<char>>, add: Seq<Seq<char>>) -> Seq<Seq<char>>
    decreases add.len(),
{
    if add.len() == 0 {
        cur
    } else {
        let e = with_events_spec(cur, add.drop_last());
        if e.contains(add.last()) {
            e
        } else {
            e.push(add.last())
        }
    }
}

/// The events of `s` that `rm` does not name, in order.
pub open spec fn without_events_spec(s: Seq<Seq<char>>, rm: Seq<Seq<char>>) -> Seq<Seq<char>>
    decreases s.len(),
{
    if s.len() == 0 {
        s
    } else {
        let e = without_events_spec(s.drop_last(), rm);
        if rm.contains(s.last()) {
            e
        } else {
            e.push(s.last())
        }
    }
}

/// The events of an edited webhook: the current ones, then the added ones
/// that are new, without the removed ones.
pub open spec fn edited_events_spec(cur: Seq<Seq<char>>, add: Seq<Seq<char>>, rm: Seq<Seq<char>>) -> Seq<Seq<char>> {
    without_events_spec(with_events_spec(cur, add), rm)
}

/// What an edit sends besides the events: each field given, else the
/// current one.
#[derive(Debug, PartialEq, Eq)]
pub struct HookUpdate {
    pub description: Option<String>,
    pub url: String,
    pub active: bool,
    pub events: Vec<String>,
}

fn contains_string(v: &Vec<String>, s: &str) -> (r: bool)
    ensures
        r == strings_of(v@).contains(s@),
{
    let mut i: usize = 0;
    while i < v.len()
        invariant
            i <= v.len(),
            forall|j: int| 0 <= j < i ==> v@[j]@ != s@,
        decreases v.len() - i,
    {
        if str_eq(v[i].as_str(), s) {
            proof {
                assert(strings_of(v@)[i as int] == s@);
            }
            return true;
        }
        i = i + 1;
    }
    proof {
        if strings_of(v@).contains(s@) {
            let j = choose|j: int| 0 <= j < strings_of(v@).len() && strings_of(v@)[j] == s@;
            assert(v@[j]@ == s@);
        }
    }
    false
}

impl WebhookCommand {
    /// The webhooks of the repository of `ctx`, or webhook `uuid`.
    pub fn hooks_path(&self, ctx: &RepoContext, uuid: Option<&str>) -> (r: String)
        ensures
            r@ == hooks_path_spec(
                ctx@,
                match uuid {
                    Some(u) => Some(u@),
                    None => None,
                },
            ),
    {
        let base = if ctx.host_type == HostType::Cloud {
            concat5("/repositories/", ctx.owner.as_str(), "/", ctx.repo_slug.as_str(), "/hooks")
        } else {
            concat5("/projects/", ctx.owner.as_str(), "/repos/", ctx.repo_slug.as_str(), "/webhooks")
        };
        match uuid {
            Some(u) => concat3(base.as_str(), "/", u),
            None => {
                proof {
                    assert(base@ + Seq::<char>::empty() =~= base@);
                }
                base
            },
        }
    }

    /// A new webhook needs at least one event.
    pub fn check_events(&self, args: &CreateArgs) -> (r: Result<(), Error>)
        ensures
            args.events.len() > 0 ==> r is Ok,
            args.events.len() == 0 ==> r == Err::<(), Error>(Error::WebhookEventsRequired),
    {
        if args.events.len() == 0 {
            return Err(Error::WebhookEventsRequired);
        }
        Ok(())
    }

    /// The deliveries of a webhook (Cloud only), `--limit` per page.
    pub fn deliveries_path(&self, ctx: &RepoContext, args: &DeliveriesArgs) -> (r: Result<String, Error>)
        ensures
            ctx.host_type != HostType::Cloud ==> r == Err::<String, Error>(Error::WebhookDeliveriesCloudOnly),
            ctx.host_type == HostType::Cloud ==> (r matches Ok(u) && u@ == hooks_path_spec(ctx@, Some(args.uuid@))
                + "/deliveries?pagelen="@ + decimal(args.limit as nat)),
    {
        if ctx.host_type != HostType::Cloud {
            return Err(Error::WebhookDeliveriesCloudOnly);
        }
        let h = self.hooks_path(ctx, Some(args.uuid.as_str()));
        let n = u64_to_string(args.limit as u64);
        Ok(concat3(h.as_str(), "/deliveries?pagelen=", n.as_str()))
    }

    /// Where `bb webhook test` posts (Cloud only).
    pub fn test_path(&self, ctx: &RepoContext, args: &TestArgs) -> (r: Result<String, Error>)
        ensures
            ctx.host_type != HostType::Cloud ==> r == Err::<String, Error>(Error::WebhookTestCloudOnly),
            ctx.host_type == HostType::Cloud ==> (r matches Ok(u) && u@ == hooks_path_spec(ctx@, Some(args.uuid@))
                + "/test"@),
    {
        if ctx.host_type != HostType::Cloud {
            return Err(Error::WebhookTestCloudOnly);
        }
        let h = self.hooks_path(ctx, Some(args.uuid.as_str()));
        Ok(concat2(h.as_str(), "/test"))
    }

    /// The events of the edited webhook.
    pub fn edited_events(&self, current: &Vec<String>, args: &EditArgs) -> (r: Vec<String>)
        ensures
            strings_of(r@) == edited_events_spec(strings_of(current@), strings_of(args.add_event@), strings_of(args.remove_event@)),
    {
        let mut events = crate::text::clone_strings(current);
        let mut i: usize = 0;
        proof {
            assert(args.add_event@.take(0) =~= Seq::<String>::empty());
            assert(strings_of(args.add_event@.take(0)) =~= Seq::<Seq<char>>::empty());
        }
        while i < args.add_event.len()
            invariant
                i <= args.add_event.len(),
                strings_of(events@) == with_events_spec(strings_of(current@), strings_of(args.add_event@.take(i as int))),
            decreases args.add_event.len() - i,
        {
            proof {
                assert(strings_of(args.add_event@.take(i + 1)).drop_last() =~= strings_of(args.add_event@.take(i as int)));
                assert(strings_of(args.add_event@.take(i + 1)).last() == args.add_event@[i as int]@);
            }
            let e = &args.add_event[i];
            if !contains_string(&events, e.as_str()) {
                let ghost before = events@;
                events.push(e.clone());
                proof {
                    assert(strings_of(events@) =~= strings_of(before).push(e@));
                }
            }
            i = i + 1;
        }
        proof {
            assert(args.add_event@.take(args.add_event.len() as int) =~= args.add_event@);
        }
        let ghost added = strings_of(events@);
        let rm = &args.remove_event;
        let mut out: Vec<String> = Vec::new();
        let mut k: usize = 0;
        proof {
            assert(added.take(0) =~= Seq::<Seq<char>>::empty());
            assert(strings_of(out@) =~= Seq::<Seq<char>>::empty());
        }
        while k < events.len()
            invariant
                k <= events.len(),
                added == strings_of(events@),
                strings_of(out@) == without_events_spec(added.take(k as int), strings_of(rm@)),
            decreases events.len() - k,
        {
            proof {
                assert(added.take(k + 1).drop_last() =~= added.take(k as int));
                assert(added.take(k + 1).last() == events@[k as int]@);
            }
            if !contains_string(rm, events[k].as_str()) {
                let ghost before = out@;
                out.push(events[k].clone());
                proof {
                    assert(strings_of(out@) =~= strings_of(before).push(events@[k as int]@));
                }
            }
            k = k + 1;
        }
        proof {
            assert(added.take(events.len() as int) =~= added);
        }
        out
    }

    /// What `bb webhook edit` sends: each field given, else the current one.
    pub fn edited_hook(&self, args: &EditArgs, description: &Option<String>, url: &str, active: bool, events: &Vec<String>) -> (r: HookUpdate)
        ensures
            r.description == (match args.description {
                Some(d) => Some(d),
                None => *description,
            }),
            r.url@ == (match args.url {
                Some(u) => u@,
                None => url@,
            }),
            r.active == (match args.active {
                Some(a) => a,
                None => active,
            }),
            strings_of(r.events@) == edited_events_spec(strings_of(events@), strings_of(args.add_event@), strings_of(args.remove_event@)),
    {
        HookUpdate {
            description: match &args.description {
                Some(d) => Some(d.clone()),
                None => clone_opt(description),
            },
            url: match &args.url {
                Some(u) => u.clone(),
                None => url.to_owned(),
            },
            active: match args.active {
                Some(a) => a,
                None => active,
            },
            events: self.edited_events(events, args),
        }
    }
}

// ---------------------------------------------------------------------
// What an edit does to the events
// ---------------------------------------------------------------------

proof fn lemma_with_events(cur: Seq<Seq<char>>, add: Seq<Seq<char>>)
    ensures
        forall|x: Seq<char>| #[trigger] with_events_spec(cur, add).contains(x) <==> (cur.contains(x) || add.contains(x)),
    decreases add.len(),
{
    if add.len() > 0 {
        lemma_with_events(cur, add.drop_last());
        let e = with_events_spec(cur, add.drop_last());
        assert forall|x: Seq<char>| #[trigger] with_events_spec(cur, add).contains(x) <==> (cur.contains(x) || add.contains(x)) by {
            if add.contains(x) && !add.drop_last().contains(x) {
                let j = choose|j: int| 0 <= j < add.len() && add[j] == x;
                if j < add.len() - 1 {
                    assert(add.drop_last()[j] == x);
                }
            }
            if add.drop_last().contains(x) {
                let j = choose|j: int| 0 <= j < add.drop_last().len() && add.drop_last()[j] == x;
                assert(add[j] == x);
            }
            if !e.contains(add.last()) {
                assert(e.push(add.last()).contains(x) <==> (e.contains(x) || x == add.last())) by {
                    if e.push(add.last()).contains(x) {
                        let j = choose|j: int| 0 <= j < e.push(add.last()).len() && e.push(add.last())[j] == x;
                        if j < e.len() {
                            assert(e[j] == x);
                        }
                    }
                    if e.contains(x) {
                        let j = choose|j: int| 0 <= j < e.len() && e[j] == x;
                        assert(e.push(add.last())[j] == x);
                    }
                    if x == add.last() {
                        assert(e.push(add.last())[e.len() as int] == x);
                    }
                }
            }
            assert(add[add.len() - 1] == add.last());
        }
    }
}

proof fn lemma_without_events(s: Seq<Seq<char>>, rm: Seq<Seq<char>>)
    ensures
        forall|x: Seq<char>| #[trigger] without_events_spec(s, rm).contains(x) <==> (s.contains(x) && !rm.contains(x)),
    decreases s.len(),
{
    if s.len() > 0 {
        lemma_without_events(s.drop_last(), rm);
        let e = without_events_spec(s.drop_last(), rm);
        assert forall|x: Seq<char>| #[trigger] without_events_spec(s, rm).contains(x) <==> (s.contains(x) && !rm.contains(x)) by {
            if s.contains(x) && !s.drop_last().contains(x) {
                let j = choose|j: int| 0 <= j < s.len() && s[j] == x;
                if j < s.len() - 1 {
                    assert(s.drop_last()[j] == x);
                }
            }
            if s.drop_last().contains(x) {
                let j = choose|j: int| 0 <= j < s.drop_last().len() && s.drop_last()[j] == x;
                assert(s[j] == x);
            }
            if !rm.contains(s.last()) {
                if e.push(s.last()).contains(x) {
                    let j = choose|j: int| 0 <= j < e.push(s.last()).len() && e.push(s.last())[j] == x;
                    if j < e.len() {
                        assert(e[j] == x);
                    }
                }
                if e.contains(x) {
                    let j = choose|j: int| 0 <= j < e.len() && e[j] == x;
                    assert(e.push(s.last())[j] == x);
                }
                if x == s.last() {
                    assert(e.push(s.last())[e.len() as int] == x);
                }
            }
            assert(s[s.len() - 1] == s.last());
        }
    }
}

/// Editing a webhook's events: an event is there afterwards exactly when
/// it was there before or was added, and was not removed.
pub proof fn law_edited_events(cur: Seq<Seq<char>>, add: Seq<Seq<char>>, rm: Seq<Seq<char>>, x: Seq<char>)
    ensures
        edited_events_spec(cur, add, rm).contains(x) <==> ((cur.contains(x) || add.contains(x)) && !rm.contains(x)),
{
    lemma_with_events(cur, add);
    lemma_without_events(with_events_spec(cur, add), rm);
    assert(with_events_spec(cur, add).contains(x) <==> (cur.contains(x) || add.contains(x)));
}


/// The events column of the webhook listing: all events joined by `, `,
/// or, for more than two, the first two and how many more there are.
pub open spec fn events_summary_spec(events: Seq<Seq<char>>) -> Seq<char> {
    if events.len() > 2 {
        join_spec(events.take(2), ", "@) + ", +"@ + decimal((events.len() - 2) as nat)
    } else {
        join_spec(events, ", "@)
    }
}

/// The events column of a row of `bb webhook list`.
pub fn events_summary(events: &Vec<String>) -> (r: String)
    ensures
        r@ == events_summary_spec(strings_of(events@)),
{
    if events.len() > 2 {
        let mut first: Vec<String> = Vec::new();
        first.push(events[0].clone());
        first.push(events[1].clone());
        proof {
            assert(strings_of(first@) =~= strings_of(events@).take(2));
        }
        let head = join(&first, ", ");
        let more = u64_to_string((events.len() - 2) as u64);
        concat3(head.as_str(), ", +", more.as_str())
    } else {
        join(events, ", ")
    }
}

} // verus!
