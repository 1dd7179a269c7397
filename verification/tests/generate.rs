use gh_workflow::generate::find_value;
use gh_workflow::generate::organize_job_dependency;
use gh_workflow::generate::Generate;
use gh_workflow::job::Job;
use gh_workflow::workflow::Jobs;
use gh_workflow::workflow::Workflow;

fn keys(workflow: &Workflow) -> Vec<String> {
    workflow
        .jobs
        .as_ref()
        .unwrap()
        .0
        .keys()
        .cloned()
        .collect()
}

fn needs(workflow: &Workflow, key: &str) -> Option<Vec<String>> {
    workflow.jobs.as_ref().unwrap().get(key).unwrap().needs.clone()
}

#[test]
fn add_needs_job() {
    let base_job = Job::new("Base job");

    let job1 =
        Job::new("The first job that has dependency for base_job").add_needs(base_job.clone());
    let job2 =
        Job::new("The second job that has dependency for base_job").add_needs(base_job.clone());

    let workflow = Workflow::new("All jobs were added to workflow")
        .add_job("base_job", base_job.clone())
        .add_job("with-dependency-1", job1)
        .add_job("with-dependency-2", job2);

    let workflow = Generate::new(workflow).workflow;

    assert_eq!(
        keys(&workflow),
        vec!["base_job", "with-dependency-1", "with-dependency-2"]
    );
    assert_eq!(needs(&workflow, "base_job"), None);
    assert_eq!(
        needs(&workflow, "with-dependency-1"),
        Some(vec!["base_job".to_string()])
    );
    assert_eq!(
        needs(&workflow, "with-dependency-2"),
        Some(vec!["base_job".to_string()])
    );
    assert_eq!(
        workflow.name,
        Some("All jobs were added to workflow".to_string())
    );
    assert_eq!(workflow.jobs.as_ref().unwrap().get("base_job"), Some(&base_job));
}

#[test]
fn missing_add_job() {
    let base_job = Job::new("Base job");

    let job1 =
        Job::new("The first job that has dependency for base_job").add_needs(base_job.clone());
    let job2 =
        Job::new("The second job that has dependency for base_job").add_needs(base_job.clone());

    let workflow = Workflow::new("base_job was not added to workflow jobs")
        .add_job("with-dependency-1", job1)
        .add_job("with-dependency-2", job2);

    let workflow = Generate::new(workflow).workflow;

    assert_eq!(
        keys(&workflow),
        vec!["job-0", "with-dependency-1", "with-dependency-2"]
    );
    assert_eq!(workflow.jobs.as_ref().unwrap().get("job-0"), Some(&base_job));
    assert_eq!(
        needs(&workflow, "with-dependency-1"),
        Some(vec!["job-0".to_string()])
    );
    assert_eq!(
        needs(&workflow, "with-dependency-2"),
        Some(vec!["job-0".to_string()])
    );
}

#[test]
fn nothing_pending_leaves_the_jobs_as_they_are() {
    let build = Job::new("Build");
    let test = Job::new("Test").add_need("build");
    let workflow = Workflow::new("ci")
        .add_job("build", build.clone())
        .add_job("test", test.clone());
    let before = workflow.clone();

    let once = organize_job_dependency(workflow);
    assert_eq!(once, before);
    assert_eq!(keys(&once), vec!["build", "test"]);
    assert_eq!(needs(&once, "test"), Some(vec!["build".to_string()]));

    let twice = organize_job_dependency(once.clone());
    assert_eq!(twice, once);
}

#[test]
fn an_empty_pending_list_changes_nothing() {
    let mut job = Job::new("Lint").add_need("build");
    job.tmp_needs = Some(Vec::new());
    let workflow = Workflow::new("ci").add_job("lint", job.clone());
    let organized = organize_job_dependency(workflow);
    assert_eq!(organized.jobs.as_ref().unwrap().get("lint"), Some(&job));
}

#[test]
fn a_single_dependency_gets_the_first_key() {
    let base = Job::new("Base");
    let job = Job::new("Dependent").add_needs(base.clone());
    let workflow = Workflow::new("ci").add_job("with-dependency-1", job);
    let organized = organize_job_dependency(workflow);

    assert_eq!(keys(&organized), vec!["job-0", "with-dependency-1"]);
    assert_eq!(organized.jobs.as_ref().unwrap().get("job-0"), Some(&base));
    assert_eq!(
        needs(&organized, "with-dependency-1"),
        Some(vec!["job-0".to_string()])
    );
}

#[test]
fn new_keys_count_up_and_follow_what_the_job_needed() {
    let a = Job::new("A");
    let b = Job::new("B");
    let c = Job::new("C");
    let first = Job::new("First")
        .add_need("setup")
        .add_needs(a.clone())
        .add_needs(b.clone());
    let second = Job::new("Second").add_needs(c.clone()).add_needs(a.clone());
    let workflow = Workflow::new("ci")
        .add_job("setup", Job::new("Setup"))
        .add_job("first", first)
        .add_job("second", second);
    let organized = organize_job_dependency(workflow);

    assert_eq!(
        keys(&organized),
        vec!["setup", "job-0", "job-1", "first", "job-2", "second"]
    );
    assert_eq!(
        needs(&organized, "first"),
        Some(vec![
            "setup".to_string(),
            "job-0".to_string(),
            "job-1".to_string()
        ])
    );
    assert_eq!(
        needs(&organized, "second"),
        Some(vec!["job-2".to_string(), "job-0".to_string()])
    );
    let jobs = organized.jobs.as_ref().unwrap();
    assert_eq!(jobs.get("job-0"), Some(&a));
    assert_eq!(jobs.get("job-1"), Some(&b));
    assert_eq!(jobs.get("job-2"), Some(&c));
}

#[test]
fn eleven_new_jobs_are_numbered_in_decimal() {
    let mut job = Job::new("Fan in");
    for n in 0..11 {
        job = job.add_needs(Job::new(&format!("Leaf {}", n)));
    }
    let workflow = Workflow::new("ci").add_job("fan-in", job);
    let organized = organize_job_dependency(workflow);
    let all = keys(&organized);
    assert_eq!(all.len(), 12);
    assert_eq!(all[9], "job-9");
    assert_eq!(all[10], "job-10");
    assert_eq!(all[11], "fan-in");
}

#[test]
fn a_dependency_of_a_dependency_is_not_resolved() {
    let inner = Job::new("Inner");
    let outer = Job::new("Outer").add_needs(inner.clone());
    let job = Job::new("Top").add_needs(outer.clone());
    let workflow = Workflow::new("ci").add_job("top", job);
    let organized = organize_job_dependency(workflow);

    assert_eq!(keys(&organized), vec!["job-0", "top"]);
    let made = organized.jobs.as_ref().unwrap().get("job-0").unwrap();
    assert_eq!(made, &outer);
    assert_eq!(made.needs, None);
}

#[test]
fn a_workflow_without_jobs_gets_an_empty_collection() {
    let organized = organize_job_dependency(Workflow::new("empty"));
    assert!(organized.jobs.is_some());
    assert_eq!(keys(&organized).len(), 0);
}

#[test]
fn find_value_gives_the_first_key_with_an_equal_job() {
    let a = Job::new("A");
    let jobs = Jobs::default()
        .add("x".to_string(), Job::new("B"))
        .add("y".to_string(), a.clone())
        .add("z".to_string(), a.clone());
    assert_eq!(find_value(&a, &jobs.0), Some(&"y".to_string()));
    assert_eq!(find_value(&Job::new("C"), &jobs.0), None);
}

#[test]
fn generate_takes_the_default_file_name() {
    let generate = Generate::new(Workflow::new("ci"));
    assert_eq!(generate.name, "ci.yml");
    let generate = generate.name("autofix.yml".to_string());
    assert_eq!(generate.name, "autofix.yml");
}
