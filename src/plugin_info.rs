use vstd::prelude::*;

verus! {

/// Name of the configuration section that holds this plugin's settings.
pub fn get_plugin_config_key() -> (r: String)
    ensures
        r@ == "rustfmt"@,
{
    String::from_str("rustfmt")
}

/// File extensions this formatter handles.
pub fn get_plugin_file_extensions() -> (r: Vec<String>)
    ensures
        r@.len() == 1,
        r@[0]@ == "rs"@,
{
    let mut r: Vec<String> = Vec::new();
    r.push(String::from_str("rs"));
    r
}

/// Where the plugin is documented.
pub fn get_plugin_help_url() -> (r: String)
    ensures
        r@ == "https://dprint.dev/plugins/rustfmt"@,
{
    String::from_str("https://dprint.dev/plugins/rustfmt")
}

/// No schema is published for this plugin's configuration.
pub fn get_plugin_config_schema_url() -> (r: String)
    ensures
        r@ == Seq::<char>::empty(),
{
    String::new()
}

pub open spec fn license_text() -> Seq<char> {
    LICENSE_TEXT@
}

pub const LICENSE_TEXT: &'static str = "The MIT License (MIT)

Copyright (c) 2020 David Sherret

Permission is hereby granted, free of charge, to any person obtaining a copy
of this software and associated documentation files (the \"Software\"), to deal
in the Software without restriction, including without limitation the rights
to use, copy, modify, merge, publish, distribute, sublicense, and/or sell
copies of the Software, and to permit persons to whom the Software is
furnished to do so, subject to the following conditions:

The above copyright notice and this permission notice shall be included in all
copies or substantial portions of the Software.

THE SOFTWARE IS PROVIDED \"AS IS\", WITHOUT WARRANTY OF ANY KIND, EXPRESS OR
IMPLIED, INCLUDING BUT NOT LIMITED TO THE WARRANTIES OF MERCHANTABILITY,
FITNESS FOR A PARTICULAR PURPOSE AND NONINFRINGEMENT. IN NO EVENT SHALL THE
AUTHORS OR COPYRIGHT HOLDERS BE LIABLE FOR ANY CLAIM, DAMAGES OR OTHER
LIABILITY, WHETHER IN AN ACTION OF CONTRACT, TORT OR OTHERWISE, ARISING FROM,
OUT OF OR IN CONNECTION WITH THE SOFTWARE OR THE USE OR OTHER DEALINGS IN THE
SOFTWARE.
";

/// The license the plugin is distributed under.
pub fn get_plugin_license_text() -> (r: String)
    ensures
        r@ == license_text(),
{
    String::from_str(LICENSE_TEXT)
}

} // verus!
