use gh_workflow::ctx::Context;
use gh_workflow::ctx::Container;
use gh_workflow::ctx::Github;
use gh_workflow::ctx::Job;
use gh_workflow::ctx::Services;
use gh_workflow::expr::Expr;
use gh_workflow::expression::Expression;

#[test]
fn ctx_test_expr() {
    let github = Context::github();

    assert_eq!(github.to_string(), "${{ github }}");

    let action = github.action();
    assert_eq!(action.to_string(), "${{ github.action }}");

    let action_path = github.action_path();
    assert_eq!(action_path.to_string(), "${{ github.action_path }}");
}

#[test]
fn test_expr_eq() {
    let github = Context::github();
    let action = github.action();
    let action_path = github.action_path();

    let expr = action.eq(action_path);

    assert_eq!(
        expr.to_string(),
        "${{ github.action == github.action_path }}"
    );
}

#[test]
fn test_expr_and() {
    let push = Context::github().event_name().eq("push".into());
    let main = Context::github().ref_().eq("ref/heads/main".into());
    let expr = push.and(main);

    assert_eq!(
        expr.to_string(),
        "${{ github.event_name == 'push' && github.ref == 'ref/heads/main' }}"
    )
}

#[test]
fn test_expr_or() {
    let github = Context::github();
    let action = github.action();
    let action_path = github.action_path();
    let action_ref = github.action_ref();

    let expr = action.eq(action_path).or(action.eq(action_ref));

    assert_eq!(
        expr.to_string(),
        "${{ github.action == github.action_path || github.action == github.action_ref }}"
    );
}

#[test]
fn select_chain_is_joined_with_dots() {
    let root: Context<Github> = Context::new();
    let a: Context<Github> = root.select("a");
    assert_eq!(a.to_string(), "${{ a }}");
    let b: Context<String> = a.select("b");
    assert_eq!(b.to_string(), "${{ a.b }}");
}

#[test]
fn root_renders_as_nothing() {
    let root: Context<Github> = Context::new();
    assert_eq!(root.to_string(), "${{  }}");
}

#[test]
fn combinators_render_the_main_branch_condition() {
    let x = Context::github().event_name();
    let y = Context::literal("push");
    let p = Context::github().ref_();
    let q = Context::literal("refs/heads/main");
    let cond = x.eq(y).and(p.eq(q));
    assert_eq!(
        cond.to_string(),
        "${{ github.event_name == 'push' && github.ref == 'refs/heads/main' }}"
    );
}

#[test]
fn rendering_twice_gives_the_same_text() {
    let cond = Context::github().actor().eq(Context::literal("octocat"));
    let first = cond.to_string();
    let second = cond.to_string();
    assert_eq!(first, second);
    assert_eq!(first, cond.clone().to_string());
}

#[test]
fn double_quotes_leave_a_root_selection_only() {
    let root: Context<Github> = Context::new();
    let quoted: Context<Github> = root.select("\"secrets\"");
    assert_eq!(quoted.to_string(), "${{ secrets }}");
    let inner: Context<String> = quoted.select("MY\"TOKEN");
    assert_eq!(inner.to_string(), "${{ secrets.MY\"TOKEN }}");
    let literal = Context::literal("say \"hi\"");
    assert_eq!(literal.to_string(), "${{ 'say \"hi\"' }}");
}

#[test]
fn concat_has_no_separator() {
    let left = Context::literal("release-");
    let right = Context::github().ref_name();
    assert_eq!(
        left.concat(right).to_string(),
        "${{ 'release-'github.ref_name }}"
    );
}

#[test]
fn job_and_container_contexts() {
    assert_eq!(Context::<Job>::job().status().to_string(), "${{ job.status }}");
    assert_eq!(
        Context::<Job>::job().container().id().to_string(),
        "${{ job.container.id }}"
    );
    assert_eq!(
        Context::<Container>::container().network().to_string(),
        "${{ container.network }}"
    );
    assert_eq!(Context::<Services>::services().to_string(), "${{ services }}");
}

#[test]
fn context_converts_to_expression() {
    let expr: Expression = Context::github().sha().into();
    assert_eq!(expr.0, "${{ github.sha }}");
    assert_eq!(Expression::new("always()").0, "always()");
}

#[test]
fn expr_test_expr() {
    let github = Expr::github();

    assert_eq!(github.to_string(), "{{ github }}");

    let action = github.action();
    assert_eq!(action.to_string(), "{{ github.action }}");

    let action_path = github.action_path();
    assert_eq!(action_path.to_string(), "{{ github.action_path }}");
}

#[test]
fn expr_selects_like_a_context() {
    assert_eq!(Expr::github().ref_().to_string(), "{{ github.ref }}");
    assert_eq!(
        Expr::<Job>::job().container().network().to_string(),
        "{{ job.container.network }}"
    );
    let root: Expr<Github> = Expr::new();
    assert_eq!(root.to_string(), "{{  }}");
}
