//! The style sheets that the pages carry, as they are sent.

use vstd::prelude::*;

verus! {

/// The style sheet of the navigation tabs.
pub const TABS_STYLE: &'static str = "
            .nav-tabs>a {
                padding: 1em;
                color: var(--text-bright);
            }
            .nav-tabs>a:hover {
                background-color: var(--button-hover) !important;
            }
            .nav-tabs>a.selected {
                background-color: var(--button-base);
            }
            ";

/// The style sheet of the todo list.
pub const TODOS_STYLE: &'static str = "
            .todos input {
                display: inline-block;
                vertical-align: middle;
            }
            header input[type=checkbox] {
                font-size: 1.5em;
            }
            .todos ul {
                list-style-type: none;
                padding-left: 0;
            }
            .todos li {
                position: relative;
                height: 2em;
                width: 20em;
                overflow: hidden;
                padding-top: .2em;
            }
            .todos li>* {
                vertical-align: middle;
            }
            .todos li>input[type=checkbox]:checked + label {
                text-decoration: line-through;
                color: var(--text-muted);
            }
            .todos button.delete:after {
                content: '\u{d7}';
                font-size: 2em;
                position: relative;
                top: -.2em;
            }
            .todos button.delete {
                position: absolute;
                margin-top: -.2em;
                right: 0;
                padding: 0;
                color: #af5b5e;
                background-color: var(--background-body);
            }
            .todos button.delete:hover {
                color: #ac262b;
            }

            ";

/// The style sheet of the filter control.
pub const FILTER_STYLE: &'static str = "
    .filter {
        max-width: fit-content;
    }
    .filter input[type=radio] {
        display: none;
    }
    .filter label {
        margin-left: .5em;
        padding: .3em;
        min-width: 3em;
        text-align: center;
        border: .1em solid var(--text-muted);
        border-radius: .5em;
    }
    .filter label:hover {
        border-color: var(--highlight);
        color: var(--highlight);
        box-shadow: 0px 0px .1em .1em var(--highlight);
    }
    .filter input:checked + label {
        border-color: var(--text-bright);
        color: var(--text-bright);
        background-color: var(--button-base);
    }
    ";

} // verus!
