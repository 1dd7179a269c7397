use gh_workflow::error::Error;
use gh_workflow::generate::Action;
use gh_workflow::generate::Generate;
use gh_workflow::job::Job;
use gh_workflow::workflow::Workflow;

#[test]
fn a_file_is_checked_against_what_is_generated() {
    let content = "name: ci\n".to_string();
    assert_eq!(
        Generate::check_content("ci.yml", Some(&content.clone()), &content),
        Ok(())
    );
    assert_eq!(
        Generate::check_content("ci.yml", Some(&"name: old\n".to_string()), &content),
        Err(Error::OutdatedWorkflow)
    );
    assert_eq!(
        Generate::check_content(".github/workflows/ci.yml", None, &content),
        Err(Error::MissingWorkflowFile(".github/workflows/ci.yml".to_string()))
    );
}

#[test]
fn the_content_is_the_comment_and_the_workflow() {
    assert_eq!(Generate::content("# generated", "name: ci\n"), "# generated\nname: ci\n");
    assert_eq!(Generate::content("", ""), "\n");
}

#[test]
fn the_action_depends_on_the_build_server() {
    assert_eq!(Generate::next_action(Ok(()), true), Action::Return(Ok(())));
    assert_eq!(
        Generate::next_action(Err(Error::OutdatedWorkflow), true),
        Action::Return(Err(Error::OutdatedWorkflow))
    );
    assert_eq!(Generate::next_action(Ok(()), false), Action::ReportUpToDate);
    assert_eq!(Generate::next_action(Err(Error::OutdatedWorkflow), false), Action::Update);
    assert_eq!(
        Generate::next_action(Err(Error::MissingWorkflowFile("p".to_string())), false),
        Action::Create("p".to_string())
    );
    assert_eq!(
        Generate::next_action(Err(Error::GitHubWorkflowMismatch), false),
        Action::Return(Err(Error::GitHubWorkflowMismatch))
    );
}

#[test]
fn workflows_are_compared_as_text() {
    let a = "name: a\n".to_string();
    let b = "name: b\n".to_string();
    assert_eq!(Generate::compare(&a, &a.clone()), Ok(()));
    assert_eq!(Generate::compare(&a, &b), Err(Error::GitHubWorkflowMismatch));
}

#[test]
fn an_identifier_is_given_once() {
    let workflow = Workflow::new("ci")
        .add_job_once("build".to_string(), Job::new("Build"))
        .unwrap();
    let again = workflow.clone().add_job_once("build".to_string(), Job::new("Other"));
    assert_eq!(again, Err(Error::JobIdAlreadyExists("build".to_string())));
    let more = workflow.add_job_once("test".to_string(), Job::new("Test")).unwrap();
    assert_eq!(more.jobs.unwrap().len(), 2);
}
