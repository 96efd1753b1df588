//! What every metric carries: its identity and where and whether it records.

use vstd::prelude::*;
use vstd::string::*;

verus! {

/// The identity of a metric, the stores it is sent in and whether it is
/// switched off.
#[derive(Debug)]
pub struct CommonMetricData {
    /// The metric's name.
    pub name: String,
    /// The category the metric belongs to; may be empty.
    pub category: String,
    /// The names of the stores that hold the metric's value.
    pub send_in_pings: Vec<String>,
    /// Whether the metric is switched off.
    pub disabled: bool,
}

/// The mathematical content of a `CommonMetricData`.
pub struct CommonMetricDataView {
    pub name: Seq<char>,
    pub category: Seq<char>,
    pub send_in_pings: Seq<Seq<char>>,
    pub disabled: bool,
}

impl CommonMetricDataView {
    /// The name by which the stores know the metric: `category.name`, or the
    /// bare name where there is no category.
    pub open spec fn identifier(self) -> Seq<char> {
        if self.category.len() == 0 {
            self.name
        } else {
            self.category + seq!['.'] + self.name
        }
    }

    /// Whether the metric itself allows recording.
    pub open spec fn should_record(self) -> bool {
        !self.disabled
    }
}

impl View for CommonMetricData {
    type V = CommonMetricDataView;

    open spec fn view(&self) -> CommonMetricDataView {
        CommonMetricDataView {
            name: self.name@,
            category: self.category@,
            send_in_pings: self.send_in_pings.deep_view(),
            disabled: self.disabled,
        }
    }
}

impl Clone for CommonMetricData {
    /// A copy with the same content.
    fn clone(&self) -> (copy: CommonMetricData)
        ensures
            copy@ == self@,
    {
        let copy = CommonMetricData {
            name: self.name.clone(),
            category: self.category.clone(),
            send_in_pings: self.send_in_pings.clone(),
            disabled: self.disabled,
        };
        assert(copy@.send_in_pings =~= self@.send_in_pings);
        copy
    }
}

impl CommonMetricData {
    /// The name by which the stores know the metric.
    pub fn identifier(&self) -> (id: String)
        ensures
            id@ == self@.identifier(),
    {
        if self.category.as_str().is_empty() {
            self.name.clone()
        } else {
            let mut id = self.category.clone();
            proof {
                reveal_strlit(".");
            }
            id.append(".");
            id.append(self.name.as_str());
            id
        }
    }

    /// Whether the metric itself allows recording.
    pub fn should_record(&self) -> (allowed: bool)
        ensures
            allowed == self@.should_record(),
    {
        !self.disabled
    }
}

} // verus!
