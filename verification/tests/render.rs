use ec2::instances::InstanceInfo;
use ec2::render::{
    beautiful_style, render_instance_json, render_instance_table, render_instance_table_to_width,
    terminal_width, titled,
};

fn info(id: &str, name: &str, kind: &str, state: &str, ip: &str) -> InstanceInfo {
    InstanceInfo {
        instance_id: id.to_string(),
        name: name.to_string(),
        instance_type: kind.to_string(),
        state: state.to_string(),
        private_ip: ip.to_string(),
    }
}

fn web() -> InstanceInfo {
    info("i-1", "web", "t3.micro", "running", "10.0.0.1")
}

#[test]
fn a_table_without_width_is_as_wide_as_its_content() {
    let expected = "\n  Title\n\
        ┌──────┬────────┬──────────┬────────────┬──────────────┐\n\
        │   ID ┆   Name ┆   Type   ┆   State    ┆   Private IP │\n\
        ╞══════╪════════╪══════════╪════════════╪══════════════╡\n\
        │ i-1  ┆ web    ┆ t3.micro ┆ \u{1F7E2} RUNNING ┆ 10.0.0.1     │\n\
        └──────┴────────┴──────────┴────────────┴──────────────┘";
    assert_eq!(render_instance_table_to_width(&[web()], "Title", None), expected);
}

#[test]
fn a_table_has_a_line_for_each_instance() {
    let instances = [web(), info("i-2", "-", "-", "stopped", "-"), info("i-3", "db", "m5.large", "pending", "-")];
    let text = render_instance_table_to_width(&instances, "Title", None);
    let lines: Vec<&str> = text.split('\n').collect();
    assert_eq!(lines.len(), 9);
    assert_eq!(lines[5], "│ i-1  ┆ web    ┆ t3.micro ┆ \u{1F7E2} RUNNING ┆ 10.0.0.1     │");
    assert_eq!(lines[6], "│ i-2  ┆ -      ┆ -        ┆ \u{1F534} STOPPED ┆ -            │");
    assert_eq!(lines[7], "│ i-3  ┆ db     ┆ m5.large ┆ \u{1F535} PENDING ┆ -            │");
}

#[test]
fn a_wide_table_is_not_stretched() {
    assert_eq!(
        render_instance_table_to_width(&[web()], "Title", Some(200)),
        render_instance_table_to_width(&[web()], "Title", None)
    );
}

#[test]
fn a_narrow_table_is_wrapped() {
    let long = info("i-1", "a rather long name of several words", "t3.micro", "running", "10.0.0.1");
    let free = render_instance_table_to_width(&[long], "T", None);
    let long = info("i-1", "a rather long name of several words", "t3.micro", "running", "10.0.0.1");
    let narrow = render_instance_table_to_width(&[long], "T", Some(60));
    assert!(narrow.split('\n').count() > free.split('\n').count());
    assert!(narrow.split('\n').all(|line| line.chars().count() <= 60));
    assert!(free.split('\n').any(|line| line.chars().count() > 60));
    let expected = "\n  T\n\
        ┌──────┬─────────────┬──────────┬────────────┬─────────────┐\n\
        │   ID ┆   Name      ┆   Type   ┆   State    ┆ Private IP  │\n\
        ╞══════╪═════════════╪══════════╪════════════╪═════════════╡\n\
        │ i-1  ┆ a rather    ┆ t3.micro ┆ \u{1F7E2} RUNNING ┆ 10.0.0.1    │\n\
        │      ┆ long name   ┆          ┆            ┆             │\n\
        │      ┆ of several  ┆          ┆            ┆             │\n\
        │      ┆ words       ┆          ┆            ┆             │\n\
        └──────┴─────────────┴──────────┴────────────┴─────────────┘";
    assert_eq!(narrow, expected);
}

#[test]
fn a_table_fits_the_terminal() {
    assert_eq!(
        render_instance_table(&[web()], "Title"),
        render_instance_table_to_width(&[web()], "Title", terminal_width())
    );
}

#[test]
fn titles_stand_above() {
    assert_eq!(titled("a", "b\nc"), "\n  a\nb\nc");
}

#[test]
fn the_style_has_no_lines_between_rows() {
    let style = beautiful_style();
    assert_eq!(style.top_border, ['┌', '─', '┬', '┐']);
    assert_eq!(style.header_lines, ['│', '┆', '│']);
    assert_eq!(style.header_separator, ['╞', '═', '╪', '╡']);
    assert_eq!(style.content_lines, ['│', '┆', '│']);
    assert_eq!(style.bottom_border, ['└', '─', '┴', '┘']);
}

#[test]
fn a_document_holds_instances_and_their_number() {
    let expected = "{
  \"count\": 2,
  \"instances\": [
    {
      \"instance_id\": \"i-1\",
      \"instance_type\": \"t3.micro\",
      \"name\": \"web\",
      \"private_ip\": \"10.0.0.1\",
      \"state\": \"running\"
    },
    {
      \"instance_id\": \"i-2\",
      \"instance_type\": \"-\",
      \"name\": \"say \\\"hi\\\"\\n\",
      \"private_ip\": \"-\",
      \"state\": \"stopped\"
    }
  ]
}";
    let instances = [web(), info("i-2", "say \"hi\"\n", "-", "stopped", "-")];
    assert_eq!(render_instance_json(&instances), expected);
}

#[test]
fn a_document_may_be_empty() {
    assert_eq!(render_instance_json(&[]), "{\n  \"count\": 0,\n  \"instances\": []\n}");
}

#[test]
fn documents_of_different_instances_differ() {
    let one = render_instance_json(&[web()]);
    let other = render_instance_json(&[info("i-1", "web", "t3.micro", "stopped", "10.0.0.1")]);
    assert_ne!(one, other);
}
