//! Names of deployed resources, built from the application's name and the
//! environment it runs in.

use vstd::prelude::*;
use vstd::string::*;

verus! {

/// What names every resource of one deployment: the application and the
/// environment.
#[derive(Debug, PartialEq, Eq)]
pub struct RuntimeConfig {
    pub app_name: String,
    pub environment: String,
}

/// What a [`RuntimeConfig`] holds, as plain values.
pub struct RuntimeConfigView {
    pub app_name: Seq<char>,
    pub environment: Seq<char>,
}

impl RuntimeConfigView {
    /// The full name of a resource: application, environment and the
    /// resource's own name, joined by hyphens.
    pub open spec fn resource_name(self, resource_name: Seq<char>) -> Seq<char> {
        self.app_name + "-"@ + self.environment + "-"@ + resource_name
    }
}

impl View for RuntimeConfig {
    type V = RuntimeConfigView;

    open spec fn view(&self) -> RuntimeConfigView {
        RuntimeConfigView { app_name: self.app_name@, environment: self.environment@ }
    }
}

impl Clone for RuntimeConfig {
    fn clone(&self) -> (r: Self)
        ensures
            r@ == self@,
    {
        RuntimeConfig { app_name: self.app_name.clone(), environment: self.environment.clone() }
    }
}

impl RuntimeConfig {
    /// A configuration for the given application and environment.
    pub fn new(app_name: &str, environment: &str) -> (r: Self)
        ensures
            r@ == (RuntimeConfigView { app_name: app_name@, environment: environment@ }),
    {
        RuntimeConfig {
            app_name: String::from_str(app_name),
            environment: String::from_str(environment),
        }
    }

    /// The full name of a resource.
    pub fn resource_name(&self, resource_name: &str) -> (r: String)
        ensures
            r@ == self@.resource_name(resource_name@),
    {
        let mut s = self.app_name.clone();
        s.append("-");
        s.append(self.environment.as_str());
        s.append("-");
        s.append(resource_name);
        s
    }

    /// The full name of a DynamoDB table.
    pub fn dynamo_table(&self, table_name: &str) -> (r: String)
        ensures
            r@ == self@.resource_name(table_name@),
    {
        self.resource_name(table_name)
    }

    /// The full name of a Lambda function.
    pub fn lambda_function(&self, function_name: &str) -> (r: String)
        ensures
            r@ == self@.resource_name(function_name@),
    {
        self.resource_name(function_name)
    }

    /// The full name of an SQS queue.
    pub fn sqs_queue(&self, queue_name: &str) -> (r: String)
        ensures
            r@ == self@.resource_name(queue_name@),
    {
        self.resource_name(queue_name)
    }

    /// The full name of an SES template.
    pub fn ses_template(&self, template_name: &str) -> (r: String)
        ensures
            r@ == self@.resource_name(template_name@),
    {
        self.resource_name(template_name)
    }
}

} // verus!
