use bitbucket_cli::cli::api::HttpMethod;
use bitbucket_cli::cli::pr::{
    branch_ref, current_branch_from, first_commit_message_from, all_checks_done, diff_stats, pr_action_request, pr_collection, pr_item, pr_page, CreateArgs,
    ListArgs, MergeArgs, MergeStrategy, PrAction, PrCommand, PrSubcommand, ReadyArgs,
    approval_count, server_comments, user_label, Activity, PrComment, PrListItem,
    pr_description, PrBranches, PrTitleSource,
};
use bitbucket_cli::context::{HostType, RepoContext};
use bitbucket_cli::error::Error;

fn cloud() -> RepoContext {
    RepoContext {
        host: "bitbucket.org".to_string(),
        host_type: HostType::Cloud,
        owner: "team".to_string(),
        repo_slug: "app".to_string(),
        default_branch: None,
    }
}

fn server() -> RepoContext {
    RepoContext {
        host: "git.corp.com".to_string(),
        host_type: HostType::Server,
        owner: "PROJ".to_string(),
        repo_slug: "app".to_string(),
        default_branch: Some("develop".to_string()),
    }
}

fn cmd() -> PrCommand {
    PrCommand { command: PrSubcommand::Ready(ReadyArgs { number: None }) }
}

fn list_args() -> ListArgs {
    ListArgs {
        state: None,
        author: None,
        reviewer: None,
        assignee: None,
        base: None,
        head: None,
        label: None,
        limit: 30,
        search: None,
    }
}

#[test]
fn pr_urls_on_both_hosts() {
    assert_eq!(pr_collection(&cloud()), "https://api.bitbucket.org/2.0/repositories/team/app/pullrequests");
    assert_eq!(pr_item(&server(), 7), "https://git.corp.com/rest/api/1.0/projects/PROJ/repos/app/pull-requests/7");
    assert_eq!(pr_page(&cloud(), 12), "https://bitbucket.org/team/app/pull-requests/12");
    assert_eq!(pr_page(&server(), 12), "https://git.corp.com/projects/PROJ/repos/app/pull-requests/12");
}

#[test]
fn pr_action_requests() {
    let r = pr_action_request(&cloud(), 3, PrAction::Merge).unwrap();
    assert_eq!(r.method, HttpMethod::Post);
    assert_eq!(r.url, "https://api.bitbucket.org/2.0/repositories/team/app/pullrequests/3/merge");
    let r = pr_action_request(&cloud(), 3, PrAction::Reopen).unwrap();
    assert_eq!(r.method, HttpMethod::Put);
    assert_eq!(r.url, "https://api.bitbucket.org/2.0/repositories/team/app/pullrequests/3");
    let r = pr_action_request(&server(), 3, PrAction::Reopen).unwrap();
    assert_eq!(r.method, HttpMethod::Post);
    assert!(r.url.ends_with("/pull-requests/3/reopen"));
    let r = pr_action_request(&server(), 3, PrAction::Unapprove).unwrap();
    assert_eq!(r.method, HttpMethod::Delete);
    assert!(r.url.ends_with("/3/approve"));
    let r = pr_action_request(&server(), 3, PrAction::ListComments).unwrap();
    assert!(r.url.ends_with("/3/activities"));
    assert!(pr_action_request(&server(), 3, PrAction::RequestChanges).is_none());
    assert!(pr_action_request(&server(), 3, PrAction::Statuses).is_none());
    assert!(pr_action_request(&cloud(), 3, PrAction::AddParticipant).is_none());
    let r = pr_action_request(&server(), 3, PrAction::AddParticipant).unwrap();
    assert!(r.url.ends_with("/3/participants"));
}

#[test]
fn cloud_list_url_default_state_and_filters() {
    let url = cmd().list_url(&list_args(), &cloud());
    assert_eq!(url, "https://api.bitbucket.org/2.0/repositories/team/app/pullrequests?pagelen=30&state=OPEN");
    let mut a = list_args();
    a.state = Some("merged".to_string());
    a.author = Some("ann".to_string());
    a.search = Some("fix".to_string());
    let url = cmd().list_url(&a, &cloud());
    assert_eq!(
        url,
        "https://api.bitbucket.org/2.0/repositories/team/app/pullrequests?pagelen=30&state=MERGED&q=author.username=\"ann\" AND title~\"fix\""
    );
}

#[test]
fn server_list_url_state_mapping() {
    let mut a = list_args();
    a.limit = 5;
    assert_eq!(
        cmd().list_url(&a, &server()),
        "https://git.corp.com/rest/api/1.0/projects/PROJ/repos/app/pull-requests?limit=5&state=OPEN"
    );
    a.state = Some("declined".to_string());
    a.base = Some("main".to_string());
    assert_eq!(
        cmd().list_url(&a, &server()),
        "https://git.corp.com/rest/api/1.0/projects/PROJ/repos/app/pull-requests?limit=5&state=DECLINED&at=refs/heads/main"
    );
    a.state = Some("whatever".to_string());
    a.base = None;
    assert!(cmd().list_url(&a, &server()).ends_with("&state=ALL"));
}

fn create_args() -> CreateArgs {
    CreateArgs {
        title: None,
        body: None,
        body_file: None,
        base: None,
        head: None,
        draft: false,
        reviewer: vec![],
        assignee: vec![],
        label: vec![],
        web: false,
        fill: false,
    }
}

#[test]
fn create_branches_defaults() {
    let b = cmd().create_branches(&create_args(), &server(), Ok("feature".to_string())).unwrap();
    assert_eq!(b.source, "feature");
    assert_eq!(b.destination, "develop");
    let b = cmd().create_branches(&create_args(), &cloud(), Ok("feature".to_string())).unwrap();
    assert_eq!(b.destination, "main");
    let mut a = create_args();
    a.head = Some("topic".to_string());
    a.base = Some("release".to_string());
    let b = cmd().create_branches(&a, &cloud(), Err(Error::NotInGitRepository)).unwrap();
    assert_eq!(b.source, "topic");
    assert_eq!(b.destination, "release");
    let e = cmd().create_branches(&create_args(), &cloud(), Err(Error::NotInGitRepository)).unwrap_err();
    assert_eq!(e, Error::NotInGitRepository);
}

#[test]
fn merge_strategy_flags() {
    let mut a = MergeArgs {
        number: None,
        merge: false,
        squash: false,
        rebase: false,
        delete_branch: false,
        auto: false,
        message: None,
    };
    assert_eq!(cmd().merge_strategy(&a), MergeStrategy::MergeCommit);
    assert_eq!(MergeStrategy::MergeCommit.api_name(), "merge_commit");
    a.rebase = true;
    assert_eq!(cmd().merge_strategy(&a).api_name(), "fast_forward");
    a.squash = true;
    assert_eq!(cmd().merge_strategy(&a).api_name(), "squash");
}

#[test]
fn current_branch_and_commit_message() {
    assert_eq!(current_branch_from(true, " feature-x\n").unwrap(), "feature-x");
    assert_eq!(current_branch_from(false, "").unwrap_err(), Error::NotInGitRepository);
    assert_eq!(first_commit_message_from(true, "Fix bug\n", "topic"), "Fix bug");
    assert_eq!(first_commit_message_from(true, "", "topic"), "topic");
    assert_eq!(first_commit_message_from(false, "x", "topic"), "topic");
    assert_eq!(branch_ref("main"), "refs/heads/main");
}

#[test]
fn find_pr_for_branch() {
    assert_eq!(
        cmd().find_for_branch_url(&cloud(), "dev"),
        "https://api.bitbucket.org/2.0/repositories/team/app/pullrequests?q=source.branch.name=\"dev\"&state=OPEN"
    );
    assert!(cmd().find_for_branch_url(&server(), "dev").ends_with("/pull-requests?state=OPEN"));
    let prs = vec![(4u64, "other".to_string()), (9u64, "dev".to_string())];
    assert_eq!(cmd().pick_for_branch(&server(), &prs, "dev"), Ok(9));
    assert_eq!(cmd().pick_for_branch(&cloud(), &prs, "dev"), Ok(4));
    assert_eq!(
        cmd().pick_for_branch(&server(), &prs, "nope"),
        Err(Error::NoOpenPrForBranch { branch: "nope".to_string() })
    );
    assert_eq!(
        Error::NoOpenPrForBranch { branch: "nope".to_string() }.message(),
        "No open PR found for branch 'nope'. Please specify a PR number."
    );
    let big = vec![((1u64 << 32) + 5, "x".to_string())];
    assert_eq!(cmd().pick_for_branch(&cloud(), &big, "x"), Ok(5));
}

#[test]
fn checks_done_only_when_all_finished() {
    assert!(all_checks_done(&vec![]));
    assert!(all_checks_done(&vec!["SUCCESSFUL".to_string(), "FAILED".to_string()]));
    assert!(!all_checks_done(&vec!["SUCCESSFUL".to_string(), "INPROGRESS".to_string()]));
}

#[test]
fn diff_stat_counts() {
    let diff = "diff --git a/x b/x\n--- a/x\n+++ b/x\n@@ -1,2 +1,2 @@\n-old\n+new\n+more\r\n context\ndiff --git a/y b/y\n-gone";
    let s = diff_stats(diff);
    assert_eq!(s.files_changed, 2);
    assert_eq!(s.insertions, 2);
    assert_eq!(s.deletions, 2);
    assert_eq!(s.summary(), "2 files changed, 2 insertions(+), 2 deletions(-)");
    let e = diff_stats("");
    assert_eq!((e.files_changed, e.insertions, e.deletions), (0, 0, 0));
}

#[test]
fn user_label_prefers_username() {
    assert_eq!(user_label(Some("jdoe".to_string()), "Jane Doe".to_string()), "jdoe");
    assert_eq!(user_label(None, "Jane Doe".to_string()), "Jane Doe");
}

#[test]
fn approvals_are_counted() {
    assert_eq!(approval_count(&vec![]), 0);
    assert_eq!(approval_count(&vec![true, false, true, true]), 3);
    assert_eq!(approval_count(&vec![false, false]), 0);
}

#[test]
fn listing_columns_are_cut() {
    let item = PrListItem {
        id: 7,
        title: "x".repeat(50),
        state: "OPEN".to_string(),
        author: "Someone With A Long Name".to_string(),
        source_branch: "feature/a-very-long-branch-name".to_string(),
        destination_branch: "main".to_string(),
        updated_on: "2024-01-01".to_string(),
    };
    let (title, author, branches) = item.columns();
    assert_eq!(title, format!("{}…", "x".repeat(44)));
    assert_eq!(author, "Someone With A Lo…");
    assert_eq!(branches, "feature/a-very-long… → main");
}

#[test]
fn server_comments_keep_only_comments() {
    let acts = vec![
        Activity { id: 1, user: "Ann".to_string(), action: "COMMENTED".to_string(), comment: Some("Looks good".to_string()), created_date: 0 },
        Activity { id: 2, user: "Bob".to_string(), action: "APPROVED".to_string(), comment: None, created_date: 1_000 },
        Activity { id: 3, user: "Cy".to_string(), action: "COMMENTED".to_string(), comment: None, created_date: 2_000 },
        Activity { id: 4, user: "Di".to_string(), action: "COMMENTED".to_string(), comment: Some("Fix it".to_string()), created_date: 1_700_000_000_000 },
    ];
    let comments = server_comments(acts);
    assert_eq!(
        comments,
        vec![
            PrComment { id: 1, author: "Ann".to_string(), content: "Looks good".to_string(), created_on: "1970-01-01 00:00:00".to_string() },
            PrComment { id: 4, author: "Di".to_string(), content: "Fix it".to_string(), created_on: "2023-11-14 22:13:20".to_string() },
        ]
    );
    assert!(server_comments(vec![]).is_empty());
}

#[test]
fn create_request_carries_title_branches_and_approvers() {
    let c = PrCommand { command: PrSubcommand::Ready(ReadyArgs { number: None }) };
    let mut args = create_args();
    args.reviewer = vec!["{u1}".to_string(), "{u2}".to_string()];
    let branches = PrBranches { source: "feature".to_string(), destination: "main".to_string() };
    let r = c.create_request(&cloud(), &args, &branches, "Add it".to_string(), Some("why".to_string()));
    assert_eq!(r.url, "https://api.bitbucket.org/2.0/repositories/team/app/pullrequests");
    assert_eq!(r.title, "Add it");
    assert_eq!(r.description.as_deref(), Some("why"));
    assert_eq!((r.source.as_str(), r.destination.as_str()), ("feature", "main"));
    assert_eq!(r.reviewers, vec!["{u1}".to_string(), "{u2}".to_string()]);
    assert_eq!(r.close_source_branch, Some(true));
    let s = c.create_request(&server(), &args, &branches, "Add it".to_string(), None);
    assert_eq!(s.url, pr_collection(&server()));
    assert_eq!(s.close_source_branch, None);
    assert_eq!(s.description, None);
}

#[test]
fn description_and_title_sources_in_order() {
    let c = PrCommand { command: PrSubcommand::Ready(ReadyArgs { number: None }) };
    let mut args = create_args();
    let file = || Some("from file".to_string());
    let log = || Some("- a commit".to_string());
    assert_eq!(pr_description(&args, None, None), None);
    assert_eq!(c.title_source(&args), PrTitleSource::Prompt);
    args.fill = true;
    assert_eq!(pr_description(&args, None, log()), log());
    assert_eq!(c.title_source(&args), PrTitleSource::FirstCommit);
    args.body_file = Some("body.md".to_string());
    assert_eq!(pr_description(&args, file(), log()), file());
    args.body = Some("given".to_string());
    assert_eq!(pr_description(&args, file(), log()), Some("given".to_string()));
    args.title = Some("T".to_string());
    assert_eq!(c.title_source(&args), PrTitleSource::Given("T".to_string()));
}
